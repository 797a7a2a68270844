//! The console lines that report, once at start-up, whether the sensor
//! answered with its expected identity.

use vstd::prelude::*;

verus! {

/// The start-up report: two lines when the sensor identified itself, one
/// diagnostic line when it did not.
pub open spec fn report_lines(identified: bool) -> Seq<Seq<char>> {
    if identified {
        seq!["BME280 initialization successful."@, "BME280 ID = 0x60.\r\n"@]
    } else {
        seq!["BME280 initialization failed.\r\n"@]
    }
}

/// The lines to print once, before polling starts, for the outcome of the
/// sensor's identification.
pub fn sensor_report(identified: bool) -> (lines: Vec<&'static str>)
    ensures
        lines@.len() == report_lines(identified).len(),
        forall|i: int| 0 <= i < lines@.len() ==> lines@[i]@ == report_lines(identified)[i],
{
    if identified {
        vec!["BME280 initialization successful.", "BME280 ID = 0x60.\r\n"]
    } else {
        vec!["BME280 initialization failed.\r\n"]
    }
}

} // verus!
