use env_display::digits::Truncated;
use env_display::display::{
    address_of, label_text, render_plan, DisplayOp, Field, Reading, HUMIDITY_ADDRESS,
    PRESSURE_ADDRESS, TEMPERATURE_ADDRESS,
};
use env_display::pass::RenderPass;
use env_display::startup::sensor_report;

fn truncated(v: f64) -> Truncated {
    Truncated { whole: v as i32, tenths: (v * 10.0) as i32 }
}

fn reading(t: f64, h: f64, p: f64) -> Reading {
    Reading { temperature: truncated(t), humidity: truncated(h), pressure: truncated(p) }
}

fn glyphs(ops: &[DisplayOp]) -> Vec<u8> {
    ops.iter()
        .map(|op| match op {
            DisplayOp::Glyph(b) => *b,
            _ => panic!("not a character write: {:?}", op),
        })
        .collect()
}

#[test]
fn render_plan_of_typical_reading() {
    let ops = render_plan(reading(23.45, 55.67, 1013.25));
    assert_eq!(ops.len(), 33);
    assert_eq!(ops[0], DisplayOp::SetCursor(0x00));
    assert_eq!(ops[1], DisplayOp::Label(Field::Temperature));
    assert_eq!(glyphs(&ops[2..11]), b"  23.4 \xdfC".to_vec());
    assert_eq!(ops[11], DisplayOp::SetCursor(0x40));
    assert_eq!(ops[12], DisplayOp::Label(Field::Humidity));
    assert_eq!(glyphs(&ops[13..21]), b"  55.6 %".to_vec());
    assert_eq!(ops[21], DisplayOp::SetCursor(0x14));
    assert_eq!(ops[22], DisplayOp::Label(Field::Pressure));
    assert_eq!(glyphs(&ops[23..33]), b"1013.2 hPa".to_vec());
}

#[test]
fn render_order_does_not_depend_on_values() {
    for r in [
        reading(0.0, 0.0, 0.0),
        reading(99.95, 100.0, 9999.9),
        reading(-12.5, 3.0, 870.0),
    ] {
        let ops = render_plan(r);
        let moves: Vec<(usize, DisplayOp)> = ops
            .iter()
            .enumerate()
            .filter(|(_, op)| matches!(op, DisplayOp::SetCursor(_)))
            .map(|(i, op)| (i, *op))
            .collect();
        assert_eq!(
            moves,
            vec![
                (0, DisplayOp::SetCursor(TEMPERATURE_ADDRESS)),
                (11, DisplayOp::SetCursor(HUMIDITY_ADDRESS)),
                (21, DisplayOp::SetCursor(PRESSURE_ADDRESS)),
            ]
        );
    }
}

#[test]
fn render_plan_of_zero_reading() {
    let ops = render_plan(reading(0.0, 0.0, 0.0));
    assert_eq!(glyphs(&ops[2..11]), b"  00.0 \xdfC".to_vec());
    assert_eq!(glyphs(&ops[13..21]), b"  00.0 %".to_vec());
    assert_eq!(glyphs(&ops[23..33]), b"0000.0 hPa".to_vec());
}

#[test]
fn field_addresses_and_labels() {
    assert_eq!(address_of(Field::Temperature), 0x00);
    assert_eq!(address_of(Field::Humidity), 0x40);
    assert_eq!(address_of(Field::Pressure), 0x14);
    assert_eq!(label_text(Field::Temperature), "Temp : ");
    assert_eq!(label_text(Field::Humidity), "Humi : ");
    assert_eq!(label_text(Field::Pressure), "Pres : ");
}

#[test]
fn failed_write_does_not_stop_the_pass() {
    let r = reading(23.45, 55.67, 1013.25);
    let plan = render_plan(r);
    let mut pass = RenderPass::new(r);
    let mut seen: Vec<DisplayOp> = Vec::new();
    while let Some(op) = pass.current() {
        seen.push(op);
        let failed = seen.len() == 5;
        pass.record(!failed);
    }
    assert_eq!(seen, plan);
    assert!(pass.is_done());
    assert_eq!(pass.attempted(), 33);
    assert_eq!(pass.failures(), 1);
}

#[test]
fn every_write_failing_still_attempts_all() {
    let mut pass = RenderPass::new(reading(1.0, 2.0, 3.0));
    let mut n = 0;
    while pass.current().is_some() {
        pass.record(false);
        n += 1;
    }
    assert_eq!(n, 33);
    assert_eq!(pass.failures(), 33);
    pass.record(false);
    assert_eq!(pass.attempted(), 33);
    assert_eq!(pass.failures(), 33);
}

#[test]
fn sensor_failure_reports_one_diagnostic() {
    let lines = sensor_report(false);
    assert_eq!(lines, vec!["BME280 initialization failed.\r\n"]);
}

#[test]
fn sensor_success_reports_identity() {
    let lines = sensor_report(true);
    assert_eq!(lines, vec!["BME280 initialization successful.", "BME280 ID = 0x60.\r\n"]);
}
