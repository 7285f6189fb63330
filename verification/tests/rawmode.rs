use kilo_core::begin_raw;
use kilo_core::cvt;
use kilo_core::end_raw;
use kilo_core::RawMasks;
use kilo_core::TermAttrs;
use kilo_core::TerminalQueryError;

fn sample_masks() -> RawMasks {
    RawMasks {
        brkint: 0x0002,
        icrnl: 0x0100,
        inpck: 0x0010,
        istrip: 0x0020,
        ixon: 0x0400,
        opost: 0x0001,
        cs8: 0x0030,
        echo: 0x0008,
        icanon: 0x0002,
        iexten: 0x8000,
        isig: 0x0001,
    }
}

#[test]
fn raw_mode_round_trip_restores_attributes_exactly() {
    let original = TermAttrs {
        iflag: 0x1234_5678,
        oflag: 0x9abc_def0,
        cflag: 0x0f0f_0f0f,
        lflag: 0xffff_ffff,
    };
    let (session, raw) = begin_raw(&original, &sample_masks());
    assert_ne!(raw, original);
    let restored = end_raw(session);
    assert_eq!(restored, original);
}

#[test]
fn raw_attributes_clear_and_force_the_documented_flags() {
    let m = sample_masks();
    let original = TermAttrs {
        iflag: 0xffff_ffff,
        oflag: 0xffff_ffff,
        cflag: 0x0000_0000,
        lflag: 0xffff_ffff,
    };
    let (_, raw) = begin_raw(&original, &m);
    assert_eq!(
        raw.iflag,
        0xffff_ffff & !(m.brkint | m.icrnl | m.inpck | m.istrip | m.ixon)
    );
    assert_eq!(raw.oflag, 0xffff_ffff & !m.opost);
    assert_eq!(raw.cflag, m.cs8);
    assert_eq!(raw.lflag, 0xffff_ffff & !(m.echo | m.icanon | m.iexten | m.isig));
    // Every disabled capability's bit is off, and the character size is on.
    assert_eq!(raw.iflag & m.brkint, 0);
    assert_eq!(raw.iflag & m.ixon, 0);
    assert_eq!(raw.oflag & m.opost, 0);
    assert_eq!(raw.lflag & m.echo, 0);
    assert_eq!(raw.lflag & m.icanon, 0);
    assert_eq!(raw.lflag & m.isig, 0);
    assert_eq!(raw.cflag & m.cs8, m.cs8);
}

#[test]
fn cvt_maps_minus_one_to_an_error() {
    assert_eq!(cvt(-1i32), Err(TerminalQueryError));
    assert_eq!(cvt(-1i64), Err(TerminalQueryError));
    assert_eq!(cvt(-1isize), Err(TerminalQueryError));
}

#[test]
fn cvt_passes_other_values_through() {
    assert_eq!(cvt(0i32), Ok(0i32));
    assert_eq!(cvt(17i64), Ok(17i64));
    assert_eq!(cvt(-2i32), Ok(-2i32));
}
