use alfen_eve::watch::{
    f32_to_regs, failed_read_line, regs_to_f32, regs_to_u32, watch_line, watch_reads, watch_target,
    written_line, WatchError, WatchRead, WatchTarget, FIRST_CURRENT, REG_MAX_CURRENT,
    REG_SETPOINT_ACCOUNTED, REG_VALID_TIME,
};

fn argument(text: &str) -> Option<String> {
    Some(text.to_string())
}

#[test]
fn singles_become_two_words() {
    assert_eq!(f32_to_regs(16f32.to_bits()), [0x4180, 0x0000]);
    assert_eq!(f32_to_regs(FIRST_CURRENT), [0x4130, 0x0000]);
    assert_eq!(f32::from_bits(FIRST_CURRENT), 11.0);
    assert_eq!(f32_to_regs(0x0102_0304), [0x0102, 0x0304]);
}

#[test]
fn two_words_become_a_single() {
    assert_eq!(f32::from_bits(regs_to_f32(&[0x4180, 0x0000])), 16.0);
    assert_eq!(regs_to_f32(&[0x0102, 0x0304, 0x0506]), 0x0102_0304);
    assert_eq!(regs_to_f32(&[0, 0xFFFF]), 0xFFFF);
}

#[test]
fn singles_read_back() {
    for v in [0.0f32, -0.0, 6.0, 0.1, -1e30, f32::INFINITY] {
        assert_eq!(regs_to_f32(&f32_to_regs(v.to_bits())), v.to_bits());
    }
    assert_eq!(f32_to_regs(regs_to_f32(&[0x1234, 0xABCD])), [0x1234, 0xABCD]);
}

#[test]
fn two_words_become_a_count() {
    assert_eq!(regs_to_u32(&[0, 120]), 120);
    assert_eq!(regs_to_u32(&[1, 2, 3]), 65538);
}

#[test]
fn a_round_reads_three_registers() {
    assert_eq!(
        watch_reads(),
        [
            WatchRead { address: REG_MAX_CURRENT, count: 2 },
            WatchRead { address: REG_SETPOINT_ACCOUNTED, count: 1 },
            WatchRead { address: REG_VALID_TIME, count: 2 },
        ]
    );
    assert_eq!((REG_MAX_CURRENT, REG_SETPOINT_ACCOUNTED, REG_VALID_TIME), (1210, 1214, 1208));
}

#[test]
fn missing_arguments_have_defaults() {
    assert_eq!(
        watch_target(&None, &None, &None),
        Ok(WatchTarget { host: "192.168.0.50".to_string(), port: 502, slave: 200 })
    );
}

#[test]
fn arguments_are_taken() {
    assert_eq!(
        watch_target(&argument("10.0.0.7"), &argument("+1502"), &argument("1")),
        Ok(WatchTarget { host: "10.0.0.7".to_string(), port: 1502, slave: 1 })
    );
}

#[test]
fn bad_arguments_are_refused() {
    let error = watch_target(&None, &argument("65536"), &argument("256")).unwrap_err();
    assert_eq!(error, WatchError::InvalidPort);
    assert_eq!(error.message(), "Invalid port");
    let error = watch_target(&None, &argument("65535"), &argument("256")).unwrap_err();
    assert_eq!(error, WatchError::InvalidSlave);
    assert_eq!(error.message(), "Invalid slave");
    assert_eq!(watch_target(&None, &argument(" 502"), &None), Err(WatchError::InvalidPort));
}

#[test]
fn lines_are_printed() {
    assert_eq!(failed_read_line(1210, "timed out"), "read 1210 failed: timed out");
    assert_eq!(
        written_line(&vec![0x4130, 0]),
        "Wrote 11.0A to reg 1210 as raw [16688, 0]"
    );
    assert_eq!(
        watch_line("11.00", &vec![0x4130, 0], &vec![1], &vec![0, 58]),
        "1210=11.00A (raw=[16688, 0]) 1214=1 1208=58s"
    );
    assert_eq!(
        watch_line("0.00", &vec![0, 0], &vec![], &vec![1, 0]),
        "1210=0.00A (raw=[0, 0]) 1214=0 1208=65536s"
    );
}
