use pinout::args::Language;
use pinout::codegen::c::generate;
use pinout::codegen::c::pin_constants;
use pinout::codegen::c::render_pin;
use pinout::codegen::c::Constant;
use pinout::codegen::c::GenerateError;
use pinout::codegen::c::PinConstants;
use pinout::codegen::c::BUILTIN_PINS;
use pinout::codegen::c::GPIO_PATTERN;
use pinout::codegen::get_generator;
use pinout::codegen::CodeGenerator;
use pinout::netlist::AssociatedComponent;
use pinout::netlist::Component;
use pinout::netlist::LibraryPart;
use pinout::netlist::Net;
use pinout::netlist::Pin;
use pinout::netlist::PinType;
use pinout::netlist::Sheet;

fn sheet() -> Sheet {
    Sheet { title: "Main board".to_string(), company: "ACME".to_string(), rev: "1.2".to_string() }
}

fn pin(num: &str, name: &str, ty: PinType) -> Pin {
    Pin { num: num.to_string(), name: name.to_string(), ty }
}

fn component(pins: Vec<(Pin, Net)>) -> AssociatedComponent {
    AssociatedComponent {
        component: Component {
            libpart: LibraryPart { lib: "MCU".to_string(), part: "Pico".to_string() },
            value: "Pico".to_string(),
            description: "A board".to_string(),
            footprint: "Module:Pico".to_string(),
            datasheet: "~".to_string(),
            reference: "U1".to_string(),
        },
        pins,
    }
}

fn found(groups: Vec<Option<&str>>) -> Option<Vec<Option<String>>> {
    Some(groups.into_iter().map(|g| g.map(|s| s.to_string())).collect())
}

const HEAD: &str = "#pragma once\n\n// Generated 2024-01-02 03:04:05 by pinout\n// - Source: `Main board` 1.2\n// - Author: ACME\n\n\n// ----------Begin component `U1`---------\n// - Library: MCU\n// - Part: Pico\n// - Value: Pico\n// - Description: A board\n// - Footprint: Module:Pico\n// - Datasheet: ~\n#pragma region U1_PINOUT\n";

const TAIL: &str = "\n#pragma endregion U1_PINOUT\n";

#[test]
fn languages_are_read_whatever_their_case() {
    assert_eq!(Language::from_str("c"), Ok(Language::C));
    assert_eq!(Language::from_str("C"), Ok(Language::C));
    assert_eq!(Language::from_str("cpp"), Ok(Language::Cpp));
    assert_eq!(Language::from_str("cxx"), Ok(Language::Cpp));
    assert_eq!(Language::from_str("c++"), Ok(Language::Cpp));
    assert_eq!(Language::from_str("CXX"), Ok(Language::Cpp));
    assert_eq!(Language::from_str("Rust"), Ok(Language::Rust));
    assert_eq!(Language::from_lowercase("rust"), Some(Language::Rust));
    assert_eq!(Language::from_lowercase("Rust"), None);
}

#[test]
fn an_unknown_language_is_answered_with_the_list() {
    let message = "unsupported language, supported languages are: C, Cpp, Rust".to_string();
    assert_eq!(Language::from_str("go"), Err(message.clone()));
    assert_eq!(Language::from_str(""), Err(message.clone()));
    assert_eq!(Language::from_str("c "), Err(message));
}

#[test]
fn languages_have_names() {
    assert_eq!(Language::C.name(), "C");
    assert_eq!(Language::Cpp.name(), "Cpp");
    assert_eq!(Language::Rust.name(), "Rust");
}

#[test]
fn c_and_cpp_share_a_generator_and_rust_has_none() {
    assert_eq!(get_generator(Language::C), Some(CodeGenerator::C));
    assert_eq!(get_generator(Language::Cpp), Some(CodeGenerator::C));
    assert_eq!(get_generator(Language::Rust), None);
}

#[test]
fn constants_are_named_after_the_net() {
    let net = Net::Label("vbat_Sense".to_string());
    assert_eq!(
        pin_constants(&net, &found(vec![Some("GPIO26_ADC0"), Some("26"), Some("0")])),
        Ok(Some(PinConstants {
            pin: Constant { name: "PIN_VBAT_SENSE".to_string(), value: 26 },
            adc: Some(Constant { name: "ADC_VBAT_SENSE".to_string(), value: 0 }),
        }))
    );
    assert_eq!(
        pin_constants(&Net::Custom("led".to_string()), &found(vec![Some("GPIO5"), Some("5"), None])),
        Ok(Some(PinConstants { pin: Constant { name: "PIN_LED".to_string(), value: 5 }, adc: None }))
    );
    assert_eq!(
        pin_constants(&Net::Custom("led".to_string()), &found(vec![Some("GPIO007"), Some("007")])),
        Ok(Some(PinConstants { pin: Constant { name: "PIN_LED".to_string(), value: 7 }, adc: None }))
    );
}

#[test]
fn a_pin_without_a_gpio_or_on_a_generated_net_has_no_constants() {
    assert_eq!(pin_constants(&Net::Custom("GND".to_string()), &None), Ok(None));
    assert_eq!(
        pin_constants(
            &Net::Generated("Net-(U1-Pad1)".to_string()),
            &found(vec![Some("GPIO1"), Some("1"), None])
        ),
        Ok(None)
    );
    assert_eq!(
        pin_constants(&Net::Generated("x".to_string()), &found(vec![Some("GPIO"), Some("x"), None])),
        Ok(None)
    );
}

#[test]
fn numbers_that_do_not_fit_are_failures() {
    let net = Net::Custom("A".to_string());
    let big = "18446744073709551616";
    assert_eq!(
        pin_constants(&net, &found(vec![Some("x"), Some(big), None])),
        Err(GenerateError::InvalidGpioNumber(big.to_string()))
    );
    assert_eq!(
        pin_constants(&net, &found(vec![Some("x"), Some("1"), Some(big)])),
        Err(GenerateError::InvalidAdcNumber(big.to_string()))
    );
    assert_eq!(
        pin_constants(&net, &found(vec![Some("x"), Some(big), Some(big)])),
        Err(GenerateError::InvalidGpioNumber(big.to_string()))
    );
    assert_eq!(
        pin_constants(&net, &found(vec![Some("x"), None, Some("1")])),
        Err(GenerateError::InvalidGpioNumber(String::new()))
    );
    assert_eq!(pin_constants(&net, &found(vec![])), Err(GenerateError::InvalidGpioNumber(String::new())));
}

#[test]
fn a_pin_is_written_with_its_comment_and_its_constant() {
    let text = render_pin(
        &pin("7", "GPIO5", PinType::Output),
        &Net::Custom("led".to_string()),
        &found(vec![Some("GPIO5"), Some("5"), None]),
    );
    assert_eq!(
        text,
        Ok("\n/// Raspberry Pi Pico GPIO Pin\n///\n/// Pin Name   : GPIO5\n/// Pin Number : 7\n/// IO Type    : Output \n/// Net Label  : led\nstatic const unsigned int PIN_LED = 5;\n".to_string())
    );
}

#[test]
fn a_pin_with_an_adc_channel_gets_two_constants() {
    let text = render_pin(
        &pin("31", "GPIO26_ADC0", PinType::BiDirectional),
        &Net::Label("VBAT_SENSE".to_string()),
        &found(vec![Some("GPIO26_ADC0"), Some("26"), Some("0")]),
    );
    assert_eq!(
        text,
        Ok("\n/// Raspberry Pi Pico GPIO Pin\n///\n/// Pin Name   : GPIO26_ADC0\n/// Pin Number : 31\n/// IO Type    : BiDirectional (ADC 0)\n/// Net Label  : VBAT_SENSE\nstatic const unsigned int PIN_VBAT_SENSE = 26;\n\n/// Raspberry Pi Pico ADC channel\n///\n/// This is the ADC channel to select the pin PIN_VBAT_SENSE\n///\n/// @see PIN_VBAT_SENSE\nstatic const unsigned int ADC_VBAT_SENSE = 0;\n".to_string())
    );
}

#[test]
fn nothing_is_written_for_a_pin_without_constants() {
    assert_eq!(render_pin(&pin("3", "GND", PinType::PowerIn), &Net::Custom("GND".to_string()), &None), Ok(String::new()));
}

#[test]
fn a_component_without_pins_gives_the_frame_of_the_header() {
    let text = generate(&sheet(), &component(vec![]), "2024-01-02", "03:04:05").unwrap();
    assert_eq!(text, format!("{}{}{}", HEAD, BUILTIN_PINS, TAIL));
}

#[test]
fn the_header_holds_a_constant_for_each_gpio_with_a_net_of_its_own() {
    let pins = vec![
        (pin("31", "GPIO26_ADC0", PinType::BiDirectional), Net::Label("VBAT_SENSE".to_string())),
        (pin("3", "GND", PinType::PowerIn), Net::Custom("GND".to_string())),
        (pin("7", "GPIO5", PinType::Output), Net::Custom("led".to_string())),
        (pin("9", "GPIO6", PinType::Input), Net::Generated("Net-(U1-Pad9)".to_string())),
    ];
    let text = generate(&sheet(), &component(pins), "2024-01-02", "03:04:05").unwrap();
    let first = "\n/// Raspberry Pi Pico GPIO Pin\n///\n/// Pin Name   : GPIO26_ADC0\n/// Pin Number : 31\n/// IO Type    : BiDirectional (ADC 0)\n/// Net Label  : VBAT_SENSE\nstatic const unsigned int PIN_VBAT_SENSE = 26;\n\n/// Raspberry Pi Pico ADC channel\n///\n/// This is the ADC channel to select the pin PIN_VBAT_SENSE\n///\n/// @see PIN_VBAT_SENSE\nstatic const unsigned int ADC_VBAT_SENSE = 0;\n";
    let second = "\n/// Raspberry Pi Pico GPIO Pin\n///\n/// Pin Name   : GPIO5\n/// Pin Number : 7\n/// IO Type    : Output \n/// Net Label  : led\nstatic const unsigned int PIN_LED = 5;\n";
    assert_eq!(text, format!("{}{}{}{}{}", HEAD, BUILTIN_PINS, first, second, TAIL));
}

#[test]
fn a_gpio_is_found_anywhere_in_the_name_of_a_pin() {
    let pins = vec![(pin("1", "SPI0_RX/GPIO16", PinType::Input), Net::Custom("miso".to_string()))];
    let text = generate(&sheet(), &component(pins), "d", "t").unwrap();
    assert!(text.contains("static const unsigned int PIN_MISO = 16;\n"));
    assert!(text.contains("/// Pin Name   : SPI0_RX/GPIO16\n"));
    let none = vec![(pin("1", "GPIO", PinType::Input), Net::Custom("x".to_string()))];
    let text = generate(&sheet(), &component(none), "2024-01-02", "03:04:05").unwrap();
    assert_eq!(text, format!("{}{}{}", HEAD, BUILTIN_PINS, TAIL));
}

#[test]
fn a_gpio_number_that_does_not_fit_leaves_no_header() {
    let pins = vec![
        (pin("1", "GPIO1", PinType::Input), Net::Custom("a".to_string())),
        (pin("2", "GPIO99999999999999999999", PinType::Input), Net::Custom("b".to_string())),
    ];
    assert_eq!(
        generate(&sheet(), &component(pins), "d", "t"),
        Err(GenerateError::InvalidGpioNumber("99999999999999999999".to_string()))
    );
    let adc = vec![(pin("2", "GPIO1_ADC99999999999999999999", PinType::Input), Net::Custom("b".to_string()))];
    assert_eq!(
        generate(&sheet(), &component(adc), "d", "t"),
        Err(GenerateError::InvalidAdcNumber("99999999999999999999".to_string()))
    );
    let skipped = vec![(pin("2", "GPIO99999999999999999999", PinType::Input), Net::Generated("Net-(x)".to_string()))];
    assert!(generate(&sheet(), &component(skipped), "d", "t").is_ok());
}

#[test]
fn the_generator_for_c_writes_the_header() {
    let pins = vec![(pin("7", "GPIO5", PinType::Output), Net::Custom("led".to_string()))];
    let by_generator = CodeGenerator::C.generate(&sheet(), &component(pins), "d", "t");
    let pins = vec![(pin("7", "GPIO5", PinType::Output), Net::Custom("led".to_string()))];
    assert_eq!(by_generator, generate(&sheet(), &component(pins), "d", "t"));
}

#[test]
fn the_constants_of_every_board_are_a_region_of_their_own() {
    assert!(BUILTIN_PINS.starts_with("#pragma region PICO_BUILTIN\n"));
    assert!(BUILTIN_PINS.ends_with("#pragma endregion PICO_BUILTIN\n"));
    assert!(BUILTIN_PINS.contains("static const unsigned int PIN_LED = 25;\n"));
    assert!(BUILTIN_PINS.contains("static const unsigned int ADC_V_SYS = 2;\n"));
    assert_eq!(BUILTIN_PINS.matches("static const unsigned int").count(), 5);
    assert_eq!(GPIO_PATTERN, "GPIO([0-9]+)(?:_ADC([0-9]+))?");
}
