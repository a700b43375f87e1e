use rtic_code_skeleton::catalog::{
    all_systems, system_config, Chip, ClockSelection, Peripheral, Pin, Protocol, SerialRoute,
};

#[test]
fn nucleo_prototype_matches_expected_hardware() {
    let system = system_config("system-nucleo-f401re").unwrap();
    assert_eq!(system.name, "Nucleo report prototype");
    assert_eq!(system.chip(), Chip::F401);
    assert_eq!(
        system.clock,
        Some(ClockSelection {
            target_hz: 84_000_000,
        })
    );

    let board = system.board.unwrap();
    assert_eq!(board.name, "ST NUCLEO-F401RE");
    assert_eq!(board.chip, Chip::F401);
    assert!(board.has_peripheral("usart1"));
    assert!(board.has_peripheral("usart2"));
    assert!(board.has_peripheral("usart6"));
    assert!(board.has_peripheral("tim3"));
    assert!(board.has_peripheral("tim4"));
    assert!(board.has_peripheral("tim5"));
    assert!(board.has_pin("led1"));
    assert!(board.has_pin("led2"));
    assert!(board.has_pin("led3"));
    assert!(board.has_pin("serial1"));
    assert!(board.has_pin("serial2"));
    assert!(board.has_pin("serial3"));
    assert!(board.has_pin("pwm1"));
    assert!(board.has_pin("pwm2"));
    assert!(!board.has_dma("unused"));

    assert_eq!(
        system.default_serial_routes,
        &[
            SerialRoute {
                pin: Pin::Serial1,
                protocol: Protocol::Crsf,
            },
            SerialRoute {
                pin: Pin::Serial2,
                protocol: Protocol::Msp,
            },
        ]
    );
}

#[test]
fn default_serial_routes_only_name_pins_the_board_declares() {
    for system in all_systems() {
        let Some(board) = system.board.as_ref() else {
            assert!(
                system.default_serial_routes.is_empty(),
                "{}: default_serial_routes requires a board",
                system.cargo_feature
            );
            continue;
        };
        for route in system.default_serial_routes.iter() {
            assert!(
                board.has_pin(route.pin.cfg_name()),
                "{}: default route names pin '{}', which board '{}' does not provide",
                system.cargo_feature,
                route.pin.cfg_name(),
                board.name
            );
        }
    }
}

#[test]
fn default_systems_have_no_board_or_clock() {
    for feature in [
        "system-default-f401",
        "system-default-f405",
        "system-default-f411",
    ] {
        let system = system_config(feature).unwrap();
        assert!(system.board.is_none(), "{feature}");
        assert!(system.clock.is_none(), "{feature}");
    }
}

#[test]
fn unknown_system_is_none() {
    assert!(system_config("system-unknown").is_none());
}

#[test]
fn every_chip_has_a_default_part() {
    for chip in Chip::ALL {
        let config = chip.config();
        assert_eq!(config.chip, chip);
        assert!(config.max_sysclk_hz > 0);
        assert!(config.default_part.flash_kib > 0);
        assert!(config.default_part.ram_kib > 0);
    }
}

#[test]
fn chip_features_round_trip() {
    for chip in Chip::ALL {
        assert_eq!(Chip::from_cargo_feature(chip.cargo_feature()), Some(chip));
    }
    assert_eq!(Chip::from_cargo_feature("f401"), Some(Chip::F401));
    assert_eq!(Chip::from_cargo_feature("f405"), Some(Chip::F405));
    assert_eq!(Chip::from_cargo_feature("f411"), Some(Chip::F411));
    assert_eq!(Chip::from_cargo_feature("f407"), None);
    assert_eq!(Chip::from_cargo_feature(""), None);
}

#[test]
fn chip_configs_hold_their_facts() {
    let f401 = Chip::F401.config();
    assert_eq!(f401.pac_feature, "stm32f4xx-hal/stm32f401");
    assert_eq!(f401.max_sysclk_hz, 84_000_000);
    assert_eq!(f401.default_part.name, "STM32F401RETx");
    assert_eq!(f401.default_part.probe_chip, "STM32F401RE");
    assert_eq!(f401.default_part.flash_kib, 512);
    assert_eq!(f401.default_part.ram_kib, 96);
    assert_eq!(f401.default_part.ccm_kib, None);

    let f405 = Chip::F405.config();
    assert_eq!(f405.max_sysclk_hz, 168_000_000);
    assert_eq!(f405.default_part.name, "STM32F405RGTx");
    assert_eq!(f405.default_part.flash_kib, 1024);
    assert_eq!(f405.default_part.ram_kib, 128);
    assert_eq!(f405.default_part.ccm_kib, Some(64));

    let f411 = Chip::F411.config();
    assert_eq!(f411.max_sysclk_hz, 100_000_000);
    assert_eq!(f411.default_part.name, "STM32F411CEUx");
    assert_eq!(f411.default_part.ram_kib, 128);
}

#[test]
fn cfg_names_and_variant_names() {
    assert_eq!(Peripheral::Usart6.cfg_name(), "usart6");
    assert_eq!(Peripheral::Tim4.cfg_name(), "tim4");
    assert_eq!(Pin::Serial3.cfg_name(), "serial3");
    assert_eq!(Pin::Pwm2.cfg_name(), "pwm2");
    assert_eq!(Protocol::Sbus.variant_name(), "Sbus");
    assert_eq!(Protocol::Mavlink.variant_name(), "Mavlink");
}

#[test]
fn board_lookups_reject_unknown_and_partial_names() {
    let board = system_config("system-nucleo-f401re").unwrap().board.unwrap();
    assert!(!board.has_peripheral("usart3"));
    assert!(!board.has_peripheral("tim"));
    assert!(!board.has_pin("led4"));
    assert!(!board.has_pin("LED1"));
    assert!(!board.has_dma(""));
    assert_eq!(board.peripherals.len(), 6);
    assert_eq!(board.pins.len(), 8);
    assert!(board.dma.is_empty());
}

#[test]
fn registered_systems_in_order() {
    let systems = all_systems();
    let features: Vec<&str> = systems.iter().map(|s| s.cargo_feature).collect();
    assert_eq!(
        features,
        vec![
            "system-nucleo-f401re",
            "system-default-f401",
            "system-default-f405",
            "system-default-f411"
        ]
    );
    let chips: Vec<Chip> = systems.iter().map(|s| s.chip()).collect();
    assert_eq!(chips, vec![Chip::F401, Chip::F401, Chip::F405, Chip::F411]);
    let default_f405 = system_config("system-default-f405").unwrap();
    assert_eq!(default_f405.name, "Default F405 system");
    assert_eq!(default_f405.embed_profile, "default-f405");
    assert_eq!(default_f405.part.name, "STM32F405RGTx");
}
