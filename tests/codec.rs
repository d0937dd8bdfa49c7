use lenovo_battery::{
    get_conservation, get_performance, get_rapid, parse_response, query_command,
    set_conservation, set_performance, set_rapid, AcpiError, PerformanceMode, Setting,
    SettingKind,
};

#[test]
fn conservation_commands() {
    assert_eq!(set_conservation(Setting::On), "\\_SB.PCI0.LPC0.EC0.VPC0.SBMC 0x03");
    assert_eq!(set_conservation(Setting::Off), "\\_SB.PCI0.LPC0.EC0.VPC0.SBMC 0x05");
}

#[test]
fn rapid_commands() {
    assert_eq!(set_rapid(Setting::On), "\\_SB.PCI0.LPC0.EC0.VPC0.SBMC 0x07");
    assert_eq!(set_rapid(Setting::Off), "\\_SB.PCI0.LPC0.EC0.VPC0.SBMC 0x08");
}

#[test]
fn performance_commands() {
    assert_eq!(
        set_performance(PerformanceMode::IntelligentCooling),
        "\\_SB.PCI0.LPC0.EC0.VPC0.DYTC 0x000FB001"
    );
    assert_eq!(
        set_performance(PerformanceMode::ExtremePerformance),
        "\\_SB.PCI0.LPC0.EC0.VPC0.DYTC 0x0012B001"
    );
    assert_eq!(
        set_performance(PerformanceMode::BatterySaving),
        "\\_SB.PCI0.LPC0.EC0.VPC0.DYTC 0x0013B001"
    );
}

#[test]
fn query_commands() {
    assert_eq!(query_command(SettingKind::Conservation), "\\_SB.PCI0.LPC0.EC0.BTSM");
    assert_eq!(query_command(SettingKind::RapidCharge), "\\_SB.PCI0.LPC0.EC0.QCHO");
    assert_eq!(query_command(SettingKind::Performance), "\\_SB.PCI0.LPC0.EC0.SPMO");
}

#[test]
fn decodes_toggle_values() {
    assert_eq!(get_conservation("0x00\0"), Ok(Setting::Off));
    assert_eq!(get_conservation("0x01\0"), Ok(Setting::On));
    assert_eq!(get_rapid("0x00\0"), Ok(Setting::Off));
    assert_eq!(get_rapid("0x01\0"), Ok(Setting::On));
}

#[test]
fn decodes_performance_values() {
    assert_eq!(get_performance("0x00\0"), Ok(PerformanceMode::IntelligentCooling));
    assert_eq!(get_performance("0x01\0"), Ok(PerformanceMode::ExtremePerformance));
    assert_eq!(get_performance("0x02\0"), Ok(PerformanceMode::BatterySaving));
}

#[test]
fn toggle_round_trip() {
    for v in [Setting::On, Setting::Off] {
        let code = match v {
            Setting::Off => 0,
            Setting::On => 1,
        };
        let answer = format!("0x{}\0", code);
        assert_eq!(get_conservation(&answer), Ok(v));
        assert_eq!(get_rapid(&answer), Ok(v));
    }
}

#[test]
fn performance_round_trip() {
    let modes = [
        PerformanceMode::IntelligentCooling,
        PerformanceMode::ExtremePerformance,
        PerformanceMode::BatterySaving,
    ];
    for (code, m) in modes.iter().enumerate() {
        let answer = format!("0x{}\0", code);
        assert_eq!(get_performance(&answer), Ok(*m));
    }
}

#[test]
fn missing_prefix_is_malformed() {
    assert_eq!(get_conservation("xyz"), Err(AcpiError::MalformedResponse));
    assert_eq!(get_rapid("xyz"), Err(AcpiError::MalformedResponse));
    assert_eq!(get_performance("xyz"), Err(AcpiError::MalformedResponse));
    assert_eq!(parse_response("xyz"), Err(AcpiError::MalformedResponse));
}

#[test]
fn toggle_out_of_range_is_unexpected() {
    assert_eq!(get_conservation("0x02\0"), Err(AcpiError::UnexpectedValue));
    assert_eq!(get_rapid("0x02\0"), Err(AcpiError::UnexpectedValue));
}

#[test]
fn performance_out_of_range_is_unexpected() {
    assert_eq!(get_performance("0x03\0"), Err(AcpiError::UnexpectedValue));
    assert_eq!(get_performance("0x255\0"), Err(AcpiError::UnexpectedValue));
}

#[test]
fn parses_numbers() {
    assert_eq!(parse_response("0x0\0"), Ok(0));
    assert_eq!(parse_response("0x00\0"), Ok(0));
    assert_eq!(parse_response("0x42\0"), Ok(42));
    assert_eq!(parse_response("0x255\0"), Ok(255));
    assert_eq!(parse_response("0x+7\0"), Ok(7));
}

#[test]
fn malformed_envelopes() {
    assert_eq!(parse_response(""), Err(AcpiError::MalformedResponse));
    assert_eq!(parse_response("0x"), Err(AcpiError::MalformedResponse));
    assert_eq!(parse_response("0x\0"), Err(AcpiError::MalformedResponse));
    assert_eq!(parse_response("0x01"), Err(AcpiError::MalformedResponse));
    assert_eq!(parse_response("0x01\n"), Err(AcpiError::MalformedResponse));
    assert_eq!(parse_response("0x01\0\0"), Err(AcpiError::MalformedResponse));
    assert_eq!(parse_response("0X01\0"), Err(AcpiError::MalformedResponse));
    assert_eq!(parse_response(" 0x01\0"), Err(AcpiError::MalformedResponse));
}

#[test]
fn malformed_numbers() {
    assert_eq!(parse_response("0x0a\0"), Err(AcpiError::MalformedResponse));
    assert_eq!(parse_response("0x256\0"), Err(AcpiError::MalformedResponse));
    assert_eq!(parse_response("0x99999999999\0"), Err(AcpiError::MalformedResponse));
    assert_eq!(parse_response("0x+\0"), Err(AcpiError::MalformedResponse));
    assert_eq!(parse_response("0x-1\0"), Err(AcpiError::MalformedResponse));
    assert_eq!(parse_response("0x 1\0"), Err(AcpiError::MalformedResponse));
    assert_eq!(get_conservation("0x1a\0"), Err(AcpiError::MalformedResponse));
}

#[test]
fn labels() {
    assert_eq!(Setting::On.label(), "on");
    assert_eq!(Setting::Off.label(), "off");
    assert_eq!(PerformanceMode::IntelligentCooling.label(), "Intelligent Cooling");
    assert_eq!(PerformanceMode::ExtremePerformance.label(), "Extreme Performance");
    assert_eq!(PerformanceMode::BatterySaving.label(), "Battery Saving");
}
