use rtic_code_skeleton::catalog::{system_config, Chip};
use rtic_code_skeleton::firmware::boot::{boot_plan, BootError};
use rtic_code_skeleton::firmware::clock::{config, ClockSettings, ClockSource};
use rtic_code_skeleton::firmware::memory::memory_layout;
use rtic_code_skeleton::firmware::gpio::{initial_level, off_level, on_level, PinLevel};
use rtic_code_skeleton::firmware::routing::{default_routes, PortRoutes};
use rtic_code_skeleton::firmware::selection::{
    linker_part, probe_matches, selected_chip, selected_system, SelectionError,
};
use rtic_code_skeleton::firmware::serial_protocol::{
    default_serial_config, resolve, DmaConfig, IrdaMode, Parity, SerialProtocol, SerialSettings,
    StopBits, WordLength,
};
use rtic_code_skeleton::firmware::tasks::{
    blink, report_timer_interrupt, timer2_interrupt, usart1, BlinkPhase,
};

fn features(names: &[&str]) -> Vec<String> {
    names.iter().map(|n| n.to_string()).collect()
}

#[test]
fn protocol_settings_match_the_protocols() {
    let sbus = SerialProtocol::Sbus.serial_config();
    assert_eq!(sbus.baudrate_bps, 100_000);
    assert_eq!(sbus.parity, Parity::ParityEven);
    assert_eq!(sbus.stopbits, StopBits::STOP2);
    assert_eq!(sbus.wordlength, WordLength::DataBits8);
    let crsf = SerialProtocol::Crsf.serial_config();
    assert_eq!(
        crsf,
        SerialSettings {
            baudrate_bps: 420_000,
            wordlength: WordLength::DataBits8,
            parity: Parity::ParityNone,
            stopbits: StopBits::STOP1,
            dma: DmaConfig::Off,
            irda: IrdaMode::Off,
        }
    );
    assert_eq!(SerialProtocol::Msp.serial_config().baudrate_bps, 115_200);
    assert_eq!(SerialProtocol::Mavlink.serial_config().baudrate_bps, 57_600);
    assert_eq!(default_serial_config(), SerialSettings::default());
    assert_eq!(resolve(None), default_serial_config());
    assert_eq!(resolve(Some(SerialProtocol::Crsf)), crsf);
}

#[test]
fn nucleo_routes_crsf_and_msp() {
    let nucleo = system_config("system-nucleo-f401re").unwrap();
    assert_eq!(
        default_routes(Some(&nucleo)),
        Ok(PortRoutes {
            serial1: Some(SerialProtocol::Crsf),
            serial2: Some(SerialProtocol::Msp),
            serial3: None,
        })
    );
    let bare = system_config("system-default-f405").unwrap();
    assert_eq!(
        default_routes(Some(&bare)),
        Ok(PortRoutes {
            serial1: None,
            serial2: None,
            serial3: None,
        })
    );
    assert_eq!(
        default_routes(None),
        Ok(PortRoutes {
            serial1: None,
            serial2: None,
            serial3: None,
        })
    );
}

#[test]
fn nucleo_boot_plan() {
    let nucleo = system_config("system-nucleo-f401re").unwrap();
    let plan = boot_plan(Chip::F401, Some(&nucleo), true).unwrap();
    assert_eq!(
        plan.clock,
        ClockSettings {
            source: ClockSource::HseBypass { hz: 8_000_000 },
            sysclk_hz: Some(84_000_000),
        }
    );
    assert!(plan.builds_board);
    assert!(plan.spawn_blink);
    assert!(plan.spawn_start_pwm);
    assert!(plan.report_route_enabled);
    assert_eq!(plan.settings.serial1.baudrate_bps, 420_000);
    assert_eq!(plan.settings.serial2.baudrate_bps, 115_200);
    assert_eq!(plan.settings.serial3, default_serial_config());
    assert_eq!(plan.settings.timer1_frequency_hz, 1);
    assert_eq!(plan.settings.timer2_frequency_hz, 10);
    assert_eq!(plan.settings.pwm_frequency_hz, 400);

    let quiet = boot_plan(Chip::F401, Some(&nucleo), false).unwrap();
    assert!(!quiet.report_route_enabled);
}

#[test]
fn report_feature_needs_the_nucleo_prototype() {
    let bare = system_config("system-default-f401").unwrap();
    assert_eq!(
        boot_plan(Chip::F401, Some(&bare), true),
        Err(BootError::ReportNeedsNucleo)
    );
    assert_eq!(boot_plan(Chip::F401, None, true), Err(BootError::ReportNeedsNucleo));
}

#[test]
fn boardless_builds_boot_bare() {
    let bare = system_config("system-default-f411").unwrap();
    let plan = boot_plan(Chip::F411, Some(&bare), false).unwrap();
    assert!(!plan.builds_board && !plan.spawn_blink && !plan.spawn_start_pwm);
    assert_eq!(
        plan.clock,
        ClockSettings {
            source: ClockSource::Hsi,
            sysclk_hz: None,
        }
    );
    let chip_only = boot_plan(Chip::F405, None, false).unwrap();
    assert!(!chip_only.builds_board && !chip_only.report_route_enabled);
}

#[test]
fn clock_follows_the_system_selection() {
    let nucleo = system_config("system-nucleo-f401re").unwrap();
    // The Nucleo system selects 84 MHz from its board's 8 MHz HSE bypass,
    // which is within the F401's maximum.
    assert_eq!(
        config(Chip::F401, Some(&nucleo)),
        Ok(ClockSettings {
            source: ClockSource::HseBypass { hz: 8_000_000 },
            sysclk_hz: Some(84_000_000)
        })
    );
    assert_eq!(config(Chip::F411, None), Ok(ClockSettings { source: ClockSource::Hsi, sysclk_hz: None }));
    let boardless = system_config("system-default-f405").unwrap();
    assert_eq!(config(Chip::F405, Some(&boardless)), Ok(ClockSettings { source: ClockSource::Hsi, sysclk_hz: None }));
}

#[test]
fn memory_layout_of_the_linked_part() {
    let f401 = linker_part(Chip::F401, None, false).unwrap();
    assert_eq!(
        memory_layout(&f401),
        "MEMORY\n{\n  FLASH : ORIGIN = 0x08000000, LENGTH = 512K\n  RAM : ORIGIN = 0x20000000, LENGTH = 96K\n}\n"
    );
    let f405 = linker_part(Chip::F405, None, false).unwrap();
    assert_eq!(
        memory_layout(&f405),
        "MEMORY\n{\n  FLASH : ORIGIN = 0x08000000, LENGTH = 1024K\n  RAM : ORIGIN = 0x20000000, LENGTH = 128K\n  CCM : ORIGIN = 0x10000000, LENGTH = 64K\n}\n"
    );
}

#[test]
fn feature_selection() {
    assert_eq!(selected_chip(&features(&["f405", "sw-report"])), Ok(Chip::F405));
    assert_eq!(
        selected_chip(&features(&["f401", "f411"])),
        Err(SelectionError::ChipCount)
    );
    assert_eq!(selected_chip(&features(&[])), Err(SelectionError::ChipCount));

    let nucleo = selected_system(Chip::F401, &features(&["f401", "system-nucleo-f401re"]))
        .unwrap()
        .unwrap();
    assert_eq!(nucleo.cargo_feature, "system-nucleo-f401re");
    assert!(selected_system(Chip::F401, &features(&["f401"])).unwrap().is_none());
    assert_eq!(
        selected_system(
            Chip::F401,
            &features(&["system-default-f401", "system-nucleo-f401re"])
        )
        .err(),
        Some(SelectionError::SystemCount)
    );
    assert_eq!(
        selected_system(Chip::F405, &features(&["system-default-f411"])).err(),
        Some(SelectionError::SystemChipMismatch)
    );
}

#[test]
fn linked_part_comes_from_the_system_or_the_chip() {
    let part = linker_part(Chip::F405, None, false).unwrap();
    assert_eq!(part.name, "STM32F405RGTx");
    assert_eq!(part.ccm_kib, Some(64));
    let nucleo = system_config("system-nucleo-f401re").unwrap();
    assert_eq!(linker_part(Chip::F401, Some(&nucleo), false).unwrap().probe_chip, "STM32F401RE");
    assert_eq!(
        linker_part(Chip::F405, Some(&nucleo), false).err(),
        Some(SelectionError::SystemChipMismatch)
    );
    assert_eq!(
        linker_part(Chip::F401, Some(&nucleo), true).err(),
        Some(SelectionError::SystemWithGeneratedBody)
    );
}

#[test]
fn output_polarity() {
    assert_eq!(initial_level(true), PinLevel::Low);
    assert_eq!(on_level(true), PinLevel::High);
    assert_eq!(off_level(true), PinLevel::Low);
    assert_eq!(initial_level(false), PinLevel::High);
    assert_eq!(on_level(false), PinLevel::Low);
    assert_eq!(off_level(false), PinLevel::High);
}

#[test]
fn interrupt_handlers() {
    let mut counter = 41u32;
    let mut buffer = [0u8; 32];
    buffer[5] = 9;
    usart1(&mut counter, &mut buffer);
    assert_eq!(counter, 42);
    assert_eq!(buffer[0], 1);
    assert_eq!(buffer[5], 9);
    let mut wrapping = u32::MAX;
    timer2_interrupt(&mut wrapping);
    assert_eq!(wrapping, 0);
    assert!(report_timer_interrupt(true));
    assert!(!report_timer_interrupt(false));
    let on = blink(BlinkPhase::TurnOn);
    assert!(on.leds_on);
    assert_eq!(on.delay_ms, 500);
    assert_eq!(on.next, BlinkPhase::TurnOff);
    let off = blink(on.next);
    assert!(!off.leds_on);
    assert_eq!(off.next, BlinkPhase::TurnOn);
}

#[test]
fn blink_alternates_on_and_off_starting_on() {
    let mut phase = BlinkPhase::TurnOn;
    for k in 0..8u32 {
        let step = blink(phase);
        assert_eq!(step.leds_on, k % 2 == 0, "step {k}");
        assert_eq!(step.delay_ms, 500);
        phase = step.next;
    }
    assert_eq!(phase, BlinkPhase::TurnOn);
}

#[test]
fn probe_profile_must_name_the_linked_part() {
    let nucleo = system_config("system-nucleo-f401re").unwrap();
    let part = linker_part(Chip::F401, Some(&nucleo), false).unwrap();
    assert!(probe_matches(&part, "STM32F401RE"));
    assert!(!probe_matches(&part, "STM32F401RETx"));
    assert!(!probe_matches(&part, "STM32F411CEUx"));
}
