use vdisk_ctl::command::{build_request, select_mode, OperationMode};
use vdisk_ctl::request::{
    build_disk_edit, build_disk_spec, parse_disk_type, resolve_target, DeviceTarget, DiskType,
    OperationRequest,
};
use vdisk_ctl::size::{parse_size, parse_unit};
use vdisk_ctl::status::ExitCode;

#[test]
fn size_suffixes() {
    assert_eq!(parse_size("10K"), Ok(10240));
    assert_eq!(parse_size("1M"), Ok(1048576));
    assert_eq!(parse_size("2g"), Ok(2147483648));
    assert_eq!(parse_size("3T"), Ok(3 * (1u64 << 40)));
    assert_eq!(parse_size("1k"), Ok(1024));
    assert_eq!(parse_size("4m"), Ok(4 * 1048576));
}

#[test]
fn size_bare_number_is_bytes() {
    assert_eq!(parse_size("512"), Ok(512));
    assert_eq!(parse_size("18446744073709551615"), Ok(u64::MAX));
}

#[test]
fn size_rejections() {
    assert_eq!(parse_size("0"), Err(ExitCode::BadSyntax));
    assert_eq!(parse_size("0K"), Err(ExitCode::BadSyntax));
    assert_eq!(parse_size("-5M"), Err(ExitCode::BadSyntax));
    assert_eq!(parse_size(""), Err(ExitCode::BadSyntax));
    assert_eq!(parse_size("K"), Err(ExitCode::BadSyntax));
    assert_eq!(parse_size("10X"), Err(ExitCode::BadSyntax));
    assert_eq!(parse_size("1.5M"), Err(ExitCode::BadSyntax));
    assert_eq!(parse_size("10KK"), Err(ExitCode::BadSyntax));
    assert_eq!(parse_size("18446744073709551616"), Err(ExitCode::BadSyntax));
    assert_eq!(parse_size("16777216T"), Err(ExitCode::BadSyntax));
}

#[test]
fn unit_numbers() {
    assert_eq!(parse_unit("0"), Ok(0));
    assert_eq!(parse_unit("65535"), Ok(65535));
    assert_eq!(parse_unit("65536"), Err(ExitCode::BadSyntax));
    assert_eq!(parse_unit("x1"), Err(ExitCode::BadSyntax));
    assert_eq!(parse_unit(""), Err(ExitCode::BadSyntax));
}

#[test]
fn disk_types() {
    assert_eq!(parse_disk_type("file"), Ok(DiskType::File));
    assert_eq!(parse_disk_type("vm"), Ok(DiskType::Vm));
    assert_eq!(parse_disk_type("proxy"), Ok(DiskType::Proxy));
    assert_eq!(parse_disk_type("disk"), Err(ExitCode::BadSyntax));
    assert_eq!(parse_disk_type("FILE"), Err(ExitCode::BadSyntax));
}

#[test]
fn target_needs_exactly_one_name() {
    assert_eq!(
        resolve_target(Some(3), Some("R:".to_string())),
        Err(ExitCode::BadSyntax)
    );
    assert_eq!(resolve_target(None, None), Err(ExitCode::BadSyntax));
    assert_eq!(resolve_target(Some(3), None), Ok(DeviceTarget::Unit(3)));
    assert_eq!(
        resolve_target(None, Some("R:".to_string())),
        Ok(DeviceTarget::MountPoint("R:".to_string()))
    );
}

#[test]
fn target_validation_for_remove_list_edit() {
    for mode in [OperationMode::Remove, OperationMode::Query, OperationMode::Edit] {
        let both = build_request(mode, false, None, None, None, Some("1"), Some("R:".to_string()));
        assert_eq!(both, Err(ExitCode::BadSyntax));
        let neither = build_request(mode, false, None, None, None, None, None);
        assert_eq!(neither, Err(ExitCode::BadSyntax));
        let unit = build_request(mode, false, None, None, None, Some("1"), None);
        assert!(unit.is_ok());
        let mount = build_request(mode, false, None, None, None, None, Some("R:".to_string()));
        assert!(mount.is_ok());
    }
}

#[test]
fn request_shapes() {
    assert_eq!(
        build_request(OperationMode::Remove, true, None, None, None, Some("7"), None),
        Ok(OperationRequest::Remove(DeviceTarget::Unit(7), true))
    );
    assert_eq!(
        build_request(OperationMode::Query, false, None, None, None, None, Some("S:".to_string())),
        Ok(OperationRequest::Query(Some(DeviceTarget::MountPoint("S:".to_string()))))
    );
    let edit = build_request(OperationMode::Edit, false, None, None, Some("2M"), Some("4"), None);
    match edit {
        Ok(OperationRequest::Edit(DeviceTarget::Unit(4), e)) => assert_eq!(e.size, Some(2097152)),
        other => panic!("unexpected {:?}", other),
    }
    assert_eq!(
        build_request(OperationMode::Edit, false, None, None, Some("0"), Some("4"), None),
        Err(ExitCode::BadSyntax)
    );
    assert_eq!(
        build_request(OperationMode::Remove, false, None, None, None, Some("70000"), None),
        Err(ExitCode::BadSyntax)
    );
}

#[test]
fn create_requests() {
    let ok = build_request(
        OperationMode::Create,
        false,
        Some("file"),
        Some("disk.img".to_string()),
        Some("10K"),
        None,
        Some("R:".to_string()),
    );
    match ok {
        Ok(OperationRequest::Create(d)) => {
            assert_eq!(d.disk_type, DiskType::File);
            assert_eq!(d.file, Some("disk.img".to_string()));
            assert_eq!(d.size, Some(10240));
            assert_eq!(d.mount_point, Some("R:".to_string()));
            assert_eq!(d.unit, None);
        }
        other => panic!("unexpected {:?}", other),
    }
    // no type
    assert_eq!(
        build_request(OperationMode::Create, false, None, None, None, None, None),
        Err(ExitCode::BadSyntax)
    );
    // a file-backed disk without its image file
    assert_eq!(
        build_disk_spec("file", None, Some("1M"), None, Some("R:".to_string())),
        Err(ExitCode::BadSyntax)
    );
    // a memory disk needs no file
    assert!(build_disk_spec("vm", None, Some("1M"), None, Some("R:".to_string())).is_ok());
    assert_eq!(
        build_disk_spec("tape", None, None, None, None),
        Err(ExitCode::BadSyntax)
    );
    assert_eq!(
        build_disk_spec("vm", None, Some("-5M"), None, None),
        Err(ExitCode::BadSyntax)
    );
    assert_eq!(build_disk_edit(None).map(|e| e.size), Ok(None));
}

#[test]
fn mode_priority() {
    assert_eq!(select_mode(true, true, false, true, true), Some(OperationMode::Create));
    assert_eq!(select_mode(false, false, true, true, false), Some(OperationMode::Remove));
    assert_eq!(select_mode(false, true, false, false, false), Some(OperationMode::Remove));
    assert_eq!(select_mode(false, false, false, true, true), Some(OperationMode::Query));
    assert_eq!(select_mode(false, false, false, false, true), Some(OperationMode::Edit));
    assert_eq!(select_mode(false, false, false, false, false), None);
}
