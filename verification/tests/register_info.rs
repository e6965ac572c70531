use mips_runner::registers::RegisterInfo;

#[test]
fn new_keeps_both_indices() {
    let info = RegisterInfo::new(15, 29);
    assert_eq!(info.pc, 15);
    assert_eq!(info.sp, 29);
}

#[test]
fn new_takes_any_pair_of_indices() {
    let pairs: [(i32, i32); 6] = [
        (0, 0),
        (1, 2),
        (-1, -7),
        (i32::MAX, i32::MIN),
        (i32::MIN, i32::MAX),
        (29, 29),
    ];
    for (pc, sp) in pairs {
        let info = RegisterInfo::new(pc, sp);
        assert_eq!(info, RegisterInfo { pc, sp });
    }
}

#[test]
fn new_takes_converted_identifiers() {
    let pc: u8 = 15;
    let sp: i16 = 29;
    let info = RegisterInfo::new(pc.into(), sp.into());
    assert_eq!(info.pc, 15);
    assert_eq!(info.sp, 29);
}

#[test]
fn info_is_plain_data() {
    let info = RegisterInfo::new(34, 31);
    let copy = info;
    assert_eq!(copy, info);
    assert_ne!(info, RegisterInfo::new(31, 34));
    assert_eq!(format!("{:?}", info), "RegisterInfo { pc: 34, sp: 31 }");
}
