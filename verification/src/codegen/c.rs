//! The C header: one constant for each pin of the component that is a GPIO
//! and has a net of its own, and one for its ADC channel if it has one.

use vstd::prelude::*;
use vstd::string::StringExecFns;

use crate::decimal::decimal_text;
use crate::decimal::parse_u64;
use crate::decimal::parsed_u64;
use crate::decimal::push_decimal;
use crate::netlist::AssociatedComponent;
use crate::netlist::ComponentInstance;
use crate::netlist::Correlation;
use crate::netlist::Net;
use crate::netlist::NetClass;
use crate::netlist::Pin;
use crate::netlist::PinDefinition;
use crate::netlist::Sheet;
use crate::netlist::SheetMetadata;
use crate::pattern::find_groups;
use crate::pattern::found_view;
use crate::pattern::pattern_groups;
use crate::pattern::pattern_is_valid;
use crate::steps::lemma_try_concat_fails;
use crate::steps::lemma_try_concat_step;
use crate::steps::try_concat;
use crate::text::ascii_uppercase_of;
use crate::text::to_ascii_upper;

verus! {

/// The constants of the pins that every board has.
pub const BUILTIN_PINS: &'static str =
    "#pragma region PICO_BUILTIN\n\n/// Raspberry Pi Pico Internal Pin\n///\n/// A GPIO tied to the PS (Power Save) pin on the internal SMPS to switch\n/// between PFM (Low Power, 0) and PWM (High Power, 1) modes.\n///\n/// IO Type    : Output\nstatic const unsigned int PIN_PSU_PS = 23;\n\n/// Raspberry Pi Pico Internal Pin\n///\n/// USB bus (V_BUS) voltage sense, digital high when present\n///\n/// IO Type    : Input\nstatic const unsigned int PIN_V_BUS_SENSE = 24;\n\n/// Raspberry Pi Pico Internal Pin\n///\n/// Pico onboard LED\n///\n/// IO Type    : Output\nstatic const unsigned int PIN_LED = 25;\n\n/// Raspberry Pi Pico Internal Pin\n///\n/// Pico onboard LED\n///\n/// IO Type    : Input (ADC 3)\nstatic const unsigned int PIN_V_SYS = 29;\n\n/// Raspberry Pi Pico Internal ADC channel\n///\n/// This is the ADC channel to select the pin PIN_V_BAT_SENSE\n///\n/// @see PIN_V_SYS\nstatic const unsigned int ADC_V_SYS = 2;\n\n#pragma endregion PICO_BUILTIN\n";

/// The pattern that finds a GPIO in the name of a pin: its number is the
/// first group, the number of its ADC channel, if it has one, the second.
pub const GPIO_PATTERN: &'static str = "GPIO([0-9]+)(?:_ADC([0-9]+))?";

/// Why no file is generated, as a mathematical value.
pub enum GenerateFailure {
    Pattern,
    InvalidGpioNumber(Seq<char>),
    InvalidAdcNumber(Seq<char>),
}

/// Why no file is generated.
#[derive(Debug, PartialEq, Eq)]
pub enum GenerateError {
    /// The pattern that finds a GPIO did not compile.
    Pattern,
    /// The number of a GPIO is no number that fits; the digits are kept.
    InvalidGpioNumber(String),
    /// The number of an ADC channel is no number that fits; the digits are
    /// kept.
    InvalidAdcNumber(String),
}

impl View for GenerateError {
    type V = GenerateFailure;

    open spec fn view(&self) -> GenerateFailure {
        match self {
            GenerateError::Pattern => GenerateFailure::Pattern,
            GenerateError::InvalidGpioNumber(digits) => GenerateFailure::InvalidGpioNumber(digits@),
            GenerateError::InvalidAdcNumber(digits) => GenerateFailure::InvalidAdcNumber(digits@),
        }
    }
}

/// What a generated text, or the want of one, stands for.
pub open spec fn generated(r: Result<String, GenerateError>) -> Result<Seq<char>, GenerateFailure> {
    match r {
        Ok(text) => Ok(text@),
        Err(e) => Err(e@),
    }
}

/// A constant to declare.
#[verifier::ext_equal]
pub struct Declaration {
    pub name: Seq<char>,
    pub value: u64,
}

/// A constant to declare.
#[derive(Debug, PartialEq, Eq)]
pub struct Constant {
    pub name: String,
    pub value: u64,
}

impl View for Constant {
    type V = Declaration;

    open spec fn view(&self) -> Declaration {
        Declaration { name: self.name@, value: self.value }
    }
}

/// The constants of one pin.
#[verifier::ext_equal]
pub struct PinDeclarations {
    pub pin: Declaration,
    pub adc: Option<Declaration>,
}

/// The constants of one pin: one for the pin, and one for its ADC channel
/// if it has one.
#[derive(Debug, PartialEq, Eq)]
pub struct PinConstants {
    pub pin: Constant,
    pub adc: Option<Constant>,
}

impl View for PinConstants {
    type V = PinDeclarations;

    open spec fn view(&self) -> PinDeclarations {
        PinDeclarations {
            pin: self.pin@,
            adc: match self.adc {
                Some(adc) => Some(adc@),
                None => None,
            },
        }
    }
}

/// What a decision on the constants of a pin stands for.
pub open spec fn decided(r: Result<Option<PinConstants>, GenerateError>) -> Result<
    Option<PinDeclarations>,
    GenerateFailure,
> {
    match r {
        Ok(Some(constants)) => Ok(Some(constants@)),
        Ok(None) => Ok(None),
        Err(e) => Err(e@),
    }
}

/// The group at place `n` of a match, if it took part in the match.
pub open spec fn group(groups: Seq<Option<Seq<char>>>, n: int) -> Option<Seq<char>> {
    if 0 <= n < groups.len() {
        groups[n]
    } else {
        None
    }
}

/// The name of a constant: a prefix and the identifier of the net in ASCII
/// upper case.
pub open spec fn constant_name(prefix: Seq<char>, net: Seq<char>) -> Seq<char> {
    prefix + ascii_uppercase_of(net)
}

/// The constants of a pin, decided from its net and from what the GPIO
/// pattern found in its name. A pin on a generated net has none, nor has a
/// pin whose name holds no GPIO. The constants are named after the net;
/// the pin's is the number of the GPIO, the other the number of the ADC
/// channel. A number that does not fit is a failure.
pub open spec fn declarations(net: NetClass, found: Option<Seq<Option<Seq<char>>>>) -> Result<
    Option<PinDeclarations>,
    GenerateFailure,
> {
    if net is Generated {
        Ok(None)
    } else {
        match found {
            None => Ok(None),
            Some(groups) => {
                let digits = match group(groups, 1) {
                    Some(digits) => digits,
                    None => Seq::empty(),
                };
                match parsed_u64(digits) {
                    None => Err(GenerateFailure::InvalidGpioNumber(digits)),
                    Some(gpio) => {
                        let pin = Declaration {
                            name: constant_name("PIN_"@, net.identifier()),
                            value: gpio,
                        };
                        match group(groups, 2) {
                            None => Ok(Some(PinDeclarations { pin, adc: None })),
                            Some(channel) => match parsed_u64(channel) {
                                None => Err(GenerateFailure::InvalidAdcNumber(channel)),
                                Some(adc) => Ok(
                                    Some(
                                        PinDeclarations {
                                            pin,
                                            adc: Some(
                                                Declaration {
                                                    name: constant_name(
                                                        "ADC_"@,
                                                        net.identifier(),
                                                    ),
                                                    value: adc,
                                                },
                                            ),
                                        },
                                    ),
                                ),
                            },
                        }
                    },
                }
            },
        }
    }
}

/// The name of a constant.
fn named(prefix: &str, net: &str) -> (r: String)
    ensures
        r@ == constant_name(prefix@, net@),
{
    let mut name = prefix.to_owned();
    let upper = to_ascii_upper(net);
    name.append(upper.as_str());
    name
}

/// Decides on the constants of a pin, from its net and from the groups that
/// the GPIO pattern found in its name.
pub fn pin_constants(net: &Net, found: &Option<Vec<Option<String>>>) -> (r: Result<
    Option<PinConstants>,
    GenerateError,
>)
    ensures
        decided(r) == declarations(net@, found_view(*found)),
{
    let id = match net {
        Net::Generated(_) => {
            return Ok(None);
        },
        Net::Label(id) => id,
        Net::Custom(id) => id,
    };
    let groups = match found {
        None => {
            return Ok(None);
        },
        Some(groups) => groups,
    };
    let digits = if groups.len() > 1 {
        match &groups[1] {
            Some(digits) => digits.clone(),
            None => String::new(),
        }
    } else {
        String::new()
    };
    let gpio = match parse_u64(digits.as_str()) {
        Some(gpio) => gpio,
        None => {
            return Err(GenerateError::InvalidGpioNumber(digits));
        },
    };
    let pin = Constant { name: named("PIN_", id.as_str()), value: gpio };
    let channel = if groups.len() > 2 {
        match &groups[2] {
            Some(channel) => Some(channel.clone()),
            None => None,
        }
    } else {
        None
    };
    match channel {
        None => Ok(Some(PinConstants { pin, adc: None })),
        Some(channel) => match parse_u64(channel.as_str()) {
            None => Err(GenerateError::InvalidAdcNumber(channel)),
            Some(adc) => Ok(
                Some(
                    PinConstants {
                        pin,
                        adc: Some(Constant { name: named("ADC_", id.as_str()), value: adc }),
                    },
                ),
            ),
        },
    }
}

/// The declaration of a constant.
pub open spec fn declaration(constant: Declaration) -> Seq<char> {
    "static const unsigned int "@ + constant.name + " = "@ + decimal_text(constant.value as nat)
        + ";\n"@
}

/// What the comment above a pin says of its ADC channel.
pub open spec fn adc_note(adc: Option<Declaration>) -> Seq<char> {
    match adc {
        Some(channel) => "(ADC "@ + decimal_text(channel.value as nat) + ")"@,
        None => Seq::empty(),
    }
}

/// The comment above the constant of an ADC channel; it names the constant
/// of the pin.
pub open spec fn adc_comment(pin_constant: Seq<char>) -> Seq<char> {
    "\n/// Raspberry Pi Pico ADC channel\n///\n/// This is the ADC channel to select the pin "@
        + pin_constant + "\n///\n/// @see "@ + pin_constant + "\n"@
}

/// The comment above the constant of a pin.
pub open spec fn pin_comment(pin: PinDefinition, net: Seq<char>, adc: Option<Declaration>) -> Seq<
    char,
> {
    "\n/// Raspberry Pi Pico GPIO Pin\n///\n/// Pin Name   : "@ + pin.name
        + "\n/// Pin Number : "@ + pin.num + "\n/// IO Type    : "@ + pin.ty.label() + " "@
        + adc_note(adc) + "\n/// Net Label  : "@ + net + "\n"@
}

/// What is written for a pin that has constants.
pub open spec fn pin_block(pin: PinDefinition, net: Seq<char>, constants: PinDeclarations) -> Seq<
    char,
> {
    pin_comment(pin, net, constants.adc) + declaration(constants.pin) + match constants.adc {
        Some(channel) => adc_comment(constants.pin.name) + declaration(channel),
        None => Seq::empty(),
    }
}

/// What is written for a pin, given what the GPIO pattern found in its
/// name: nothing for a pin without constants.
pub open spec fn pin_text(
    pin: PinDefinition,
    net: NetClass,
    found: Option<Seq<Option<Seq<char>>>>,
) -> Result<Seq<char>, GenerateFailure> {
    match declarations(net, found) {
        Err(e) => Err(e),
        Ok(None) => Ok(Seq::empty()),
        Ok(Some(constants)) => Ok(pin_block(pin, net.identifier(), constants)),
    }
}

/// What is written for a pin with its net. The name of a pin on a generated
/// net is not looked at.
pub open spec fn pin_section(entry: (PinDefinition, NetClass)) -> Result<
    Seq<char>,
    GenerateFailure,
> {
    if entry.1 is Generated {
        Ok(Seq::empty())
    } else if !pattern_is_valid(GPIO_PATTERN@) {
        Err(GenerateFailure::Pattern)
    } else {
        pin_text(entry.0, entry.1, pattern_groups(GPIO_PATTERN@, entry.0.name))
    }
}

/// Writes what the header holds for one pin with its net.
pub open spec fn pin_writer() -> spec_fn((PinDefinition, NetClass)) -> Result<
    Seq<char>,
    GenerateFailure,
> {
    |entry: (PinDefinition, NetClass)| pin_section(entry)
}

/// The head of the file: when it was generated, and from which sheet.
pub open spec fn preamble(sheet: SheetMetadata, date: Seq<char>, time: Seq<char>) -> Seq<char> {
    "#pragma once\n\n// Generated "@ + date + " "@ + time + " by pinout\n// - Source: `"@
        + sheet.title + "` "@ + sheet.rev + "\n// - Author: "@ + sheet.company + "\n"@
}

/// What the file says of the component, and the opening of its region.
pub open spec fn component_intro(component: ComponentInstance) -> Seq<char> {
    "\n\n// ----------Begin component `"@ + component.reference
        + "`---------\n// - Library: "@ + component.libpart.lib + "\n// - Part: "@
        + component.libpart.part + "\n// - Value: "@ + component.value
        + "\n// - Description: "@ + component.description + "\n// - Footprint: "@
        + component.footprint + "\n// - Datasheet: "@ + component.datasheet
        + "\n#pragma region "@ + component.reference + "_PINOUT\n"@
}

/// The closing of the component's region.
pub open spec fn closing(reference: Seq<char>) -> Seq<char> {
    "\n#pragma endregion "@ + reference + "_PINOUT\n"@
}

/// The header for a component: the head, the component, the constants
/// that every board has, then the pins in the component's order, and the
/// closing. A pin that fails leaves no header at all.
pub open spec fn header_text(
    sheet: SheetMetadata,
    component: Correlation,
    date: Seq<char>,
    time: Seq<char>,
) -> Result<Seq<char>, GenerateFailure> {
    match try_concat(component.pins, pin_writer()) {
        Err(e) => Err(e),
        Ok(pins) => Ok(
            preamble(sheet, date, time) + component_intro(component.component) + BUILTIN_PINS@
                + pins + closing(component.component.reference),
        ),
    }
}

fn push_declaration(out: &mut String, constant: &Constant)
    ensures
        final(out)@ == old(out)@ + declaration(constant@),
{
    out.append("static const unsigned int ");
    out.append(constant.name.as_str());
    out.append(" = ");
    push_decimal(out, constant.value);
    out.append(";\n");
}

fn push_pin_comment(out: &mut String, pin: &Pin, net: &str, adc: &Option<Constant>)
    ensures
        final(out)@ == old(out)@ + pin_comment(
            pin@,
            net@,
            match *adc {
                Some(channel) => Some(channel@),
                None => None,
            },
        ),
{
    out.append("\n/// Raspberry Pi Pico GPIO Pin\n///\n/// Pin Name   : ");
    out.append(pin.name.as_str());
    out.append("\n/// Pin Number : ");
    out.append(pin.num.as_str());
    out.append("\n/// IO Type    : ");
    out.append(pin.ty.name());
    out.append(" ");
    match adc {
        Some(channel) => {
            out.append("(ADC ");
            push_decimal(out, channel.value);
            out.append(")");
        },
        None => {},
    }
    out.append("\n/// Net Label  : ");
    out.append(net);
    out.append("\n");
}

fn push_adc_comment(out: &mut String, pin_constant: &str)
    ensures
        final(out)@ == old(out)@ + adc_comment(pin_constant@),
{
    out.append(
        "\n/// Raspberry Pi Pico ADC channel\n///\n/// This is the ADC channel to select the pin ",
    );
    out.append(pin_constant);
    out.append("\n///\n/// @see ");
    out.append(pin_constant);
    out.append("\n");
}

/// Writes what the header holds for one pin, given the groups that the
/// GPIO pattern found in the pin's name.
pub fn render_pin(pin: &Pin, net: &Net, found: &Option<Vec<Option<String>>>) -> (r: Result<
    String,
    GenerateError,
>)
    ensures
        generated(r) == pin_text(pin@, net@, found_view(*found)),
{
    let constants = match pin_constants(net, found) {
        Err(e) => {
            return Err(e);
        },
        Ok(None) => {
            return Ok(String::new());
        },
        Ok(Some(constants)) => constants,
    };
    let mut out = String::new();
    push_pin_comment(&mut out, pin, net.identifier().as_str(), &constants.adc);
    push_declaration(&mut out, &constants.pin);
    match &constants.adc {
        Some(channel) => {
            push_adc_comment(&mut out, constants.pin.name.as_str());
            push_declaration(&mut out, channel);
        },
        None => {},
    }
    proof {
        let empty = Seq::<char>::empty();
        let comment = pin_comment(pin@, net@.identifier(), constants@.adc);
        match constants@.adc {
            Some(channel) => {
                assert(out@ =~= comment + declaration(constants@.pin) + (adc_comment(
                    constants@.pin.name,
                ) + declaration(channel)));
            },
            None => {
                assert(out@ =~= comment + declaration(constants@.pin) + empty);
            },
        }
    }
    Ok(out)
}

fn push_preamble(out: &mut String, sheet: &Sheet, date: &str, time: &str)
    ensures
        final(out)@ == old(out)@ + preamble(sheet@, date@, time@),
{
    out.append("#pragma once\n\n// Generated ");
    out.append(date);
    out.append(" ");
    out.append(time);
    out.append(" by pinout\n// - Source: `");
    out.append(sheet.title.as_str());
    out.append("` ");
    out.append(sheet.rev.as_str());
    out.append("\n// - Author: ");
    out.append(sheet.company.as_str());
    out.append("\n");
}

fn push_component_intro(out: &mut String, component: &AssociatedComponent)
    ensures
        final(out)@ == old(out)@ + component_intro(component@.component),
{
    out.append("\n\n// ----------Begin component `");
    out.append(component.component.reference.as_str());
    out.append("`---------\n// - Library: ");
    out.append(component.component.libpart.lib.as_str());
    out.append("\n// - Part: ");
    out.append(component.component.libpart.part.as_str());
    out.append("\n// - Value: ");
    out.append(component.component.value.as_str());
    out.append("\n// - Description: ");
    out.append(component.component.description.as_str());
    out.append("\n// - Footprint: ");
    out.append(component.component.footprint.as_str());
    out.append("\n// - Datasheet: ");
    out.append(component.component.datasheet.as_str());
    out.append("\n#pragma region ");
    out.append(component.component.reference.as_str());
    out.append("_PINOUT\n");
}

/// Writes what the header holds for the pins of a component.
fn render_pins(component: &AssociatedComponent) -> (r: Result<String, GenerateError>)
    ensures
        generated(r) == try_concat(component@.pins, pin_writer()),
{
    let mut out = String::new();
    let mut i: usize = 0;
    let ghost entries = component@.pins;
    while i < component.pins.len()
        invariant
            i <= component.pins.len(),
            entries == component@.pins,
            try_concat(entries.take(i as int), pin_writer()) == Ok::<_, GenerateFailure>(out@),
        decreases component.pins.len() - i,
    {
        let pin = &component.pins[i].0;
        let net = &component.pins[i].1;
        proof {
            assert(entries[i as int] == (pin@, net@));
            lemma_try_concat_step(entries, pin_writer(), i as int);
        }
        match net {
            Net::Generated(_) => {
                assert(out@ + Seq::<char>::empty() =~= out@);
            },
            _ => {
                let found = match find_groups(GPIO_PATTERN, pin.name.as_str()) {
                    Ok(found) => found,
                    Err(_) => {
                        proof {
                            lemma_try_concat_fails(entries, pin_writer(), i + 1);
                        }
                        return Err(GenerateError::Pattern);
                    },
                };
                match render_pin(pin, net, &found) {
                    Ok(text) => {
                        out.append(text.as_str());
                    },
                    Err(e) => {
                        proof {
                            lemma_try_concat_fails(entries, pin_writer(), i + 1);
                        }
                        return Err(e);
                    },
                }
            },
        }
        i = i + 1;
    }
    proof {
        assert(entries.take(i as int) =~= entries);
    }
    Ok(out)
}

/// Generates the header for a component. `date` and `time` say when, in the
/// words that the header is to carry.
pub fn generate(sheet: &Sheet, component: &AssociatedComponent, date: &str, time: &str) -> (r:
    Result<String, GenerateError>)
    ensures
        generated(r) == header_text(sheet@, component@, date@, time@),
{
    let pins = match render_pins(component) {
        Ok(pins) => pins,
        Err(e) => {
            return Err(e);
        },
    };
    let mut out = String::new();
    push_preamble(&mut out, sheet, date, time);
    push_component_intro(&mut out, component);
    out.append(BUILTIN_PINS);
    out.append(pins.as_str());
    out.append("\n#pragma endregion ");
    out.append(component.component.reference.as_str());
    out.append("_PINOUT\n");
    proof {
        assert(out@ =~= preamble(sheet@, date@, time@) + component_intro(component@.component)
            + BUILTIN_PINS@ + pins@ + closing(component@.component.reference));
    }
    Ok(out)
}

} // verus!
