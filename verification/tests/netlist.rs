use pinout::netlist::component_table;
use pinout::netlist::net_table;
use pinout::netlist::part_table;
use pinout::netlist::read_pins;
use pinout::netlist::AssociatedComponent;
use pinout::netlist::BuildError;
use pinout::netlist::Component;
use pinout::netlist::LibraryPart;
use pinout::netlist::Net;
use pinout::netlist::Netlist;
use pinout::netlist::Node;
use pinout::netlist::Phase;
use pinout::netlist::Pin;
use pinout::netlist::PinType;
use pinout::netlist::Section;
use pinout::netlist::Sheet;
use pinout::netlist::NET_HEADER_FIELDS;
use pinout::reader::parse_document;
use pinout::reader::read_document;
use pinout::sexpr::Sexp;
use pinout::table::Key;
use pinout::table::Table;

const MINIMAL: &str = "(export (version D)
  (design
    (sheet (number 1) (name /) (tstamps /)
      (title_block
        (title \"Main board\")
        (company \"ACME\")
        (rev \"1.2\")
        (date \"\"))))
  (components
    (comp (ref U1)
      (value CHIP)
      (footprint \"Package_DFN_QFN:QFN-56\")
      (datasheet \"https://example.com/chip.pdf\")
      (libsource (lib MCU) (part CHIP) (description \"A chip\"))
      (tstamp 5F2C0A00)))
  (libparts
    (libpart (lib MCU) (part CHIP)
      (aliases
        (alias CHIP_ALT))
      (pins
        (pin (num 1) (name GPIO0) (type input)))))
  (nets
    (net (code 1) (name \"/RESET\")
      (node (ref U1) (pin 1))
      (node (ref U2) (pin 3)))))";

fn doc(text: &str) -> Sexp {
    parse_document(text).unwrap()
}

fn key(lib: &str, part: &str) -> LibraryPart {
    LibraryPart { lib: lib.to_string(), part: part.to_string() }
}

fn node(reference: &str, pin: &str) -> Node {
    Node { reference: reference.to_string(), pin: pin.to_string() }
}

fn pin(num: &str, name: &str, ty: PinType) -> Pin {
    Pin { num: num.to_string(), name: name.to_string(), ty }
}

#[test]
fn names_of_generated_nets_begin_with_net() {
    assert_eq!(Net::from_name("Net-(R1-Pad1)".to_string()), Net::Generated("Net-(R1-Pad1)".to_string()));
    assert_eq!(Net::from_name("Net-(".to_string()), Net::Generated("Net-(".to_string()));
    assert_eq!(Net::from_name("Net-".to_string()), Net::Custom("Net-".to_string()));
    assert_eq!(Net::from_name("net-(x)".to_string()), Net::Custom("net-(x)".to_string()));
    assert_eq!(Net::from_name(" Net-(x)".to_string()), Net::Custom(" Net-(x)".to_string()));
}

#[test]
fn names_of_labels_begin_with_a_slash_which_is_not_kept() {
    assert_eq!(Net::from_name("/RESET".to_string()), Net::Label("RESET".to_string()));
    assert_eq!(Net::from_name("/".to_string()), Net::Label(String::new()));
    assert_eq!(Net::from_name("/sheet/CLK".to_string()), Net::Label("sheet/CLK".to_string()));
    assert_eq!(Net::from_name("//x".to_string()), Net::Label("/x".to_string()));
}

#[test]
fn other_names_are_the_designers_own() {
    assert_eq!(Net::from_name("VCC".to_string()), Net::Custom("VCC".to_string()));
    assert_eq!(Net::from_name(String::new()), Net::Custom(String::new()));
    assert_eq!(Net::from_name("A/B".to_string()), Net::Custom("A/B".to_string()));
    assert_eq!(Net::from_name("+3V3".to_string()), Net::Custom("+3V3".to_string()));
}

#[test]
fn a_net_is_known_by_its_identifier() {
    assert_eq!(Net::from_name("/RESET".to_string()).identifier(), "RESET");
    assert_eq!(Net::from_name("VCC".to_string()).identifier(), "VCC");
    assert_eq!(Net::from_name("Net-(a)".to_string()).identifier(), "Net-(a)");
}

#[test]
fn a_net_record_is_classified_by_its_name() {
    assert_eq!(Net::new(&doc("(net (code 1) (name \"/RESET\"))")), Net::Label("RESET".to_string()));
    assert_eq!(Net::new(&doc("(net (code 1) (name GND))")), Net::Custom("GND".to_string()));
    assert_eq!(Net::new(&doc("(net (code 1))")), Net::Custom(String::new()));
    assert_eq!(
        Net::new(&doc("(net (code 2) (name \"Net-(U1-Pad4)\"))")),
        Net::Generated("Net-(U1-Pad4)".to_string())
    );
}

#[test]
fn pin_types_are_read_whatever_their_case() {
    assert_eq!(PinType::from("passive"), Some(PinType::Passive));
    assert_eq!(PinType::from("input"), Some(PinType::Input));
    assert_eq!(PinType::from("output"), Some(PinType::Output));
    assert_eq!(PinType::from("bidi"), Some(PinType::BiDirectional));
    assert_eq!(PinType::from("power_in"), Some(PinType::PowerIn));
    assert_eq!(PinType::from("power_out"), Some(PinType::PowerOut));
    assert_eq!(PinType::from("notconnected"), Some(PinType::NotConnected));
    assert_eq!(PinType::from("3state"), Some(PinType::TriState));
    assert_eq!(PinType::from("INPUT"), Some(PinType::Input));
    assert_eq!(PinType::from("BiDi"), Some(PinType::BiDirectional));
    assert_eq!(PinType::from("Power_In"), Some(PinType::PowerIn));
}

#[test]
fn words_outside_the_vocabulary_name_no_pin_type() {
    assert_eq!(PinType::from("weird"), None);
    assert_eq!(PinType::from(""), None);
    assert_eq!(PinType::from("input "), None);
    assert_eq!(PinType::from("unspecified"), None);
    assert_eq!(PinType::from("openCollector"), None);
    assert_eq!(PinType::from_lowercase("INPUT"), None);
    assert_eq!(PinType::from_lowercase("input"), Some(PinType::Input));
}

#[test]
fn pin_types_have_names() {
    assert_eq!(PinType::Input.name(), "Input");
    assert_eq!(PinType::Output.name(), "Output");
    assert_eq!(PinType::BiDirectional.name(), "BiDirectional");
    assert_eq!(PinType::PowerIn.name(), "PowerIn");
    assert_eq!(PinType::PowerOut.name(), "PowerOut");
    assert_eq!(PinType::Passive.name(), "Passive");
    assert_eq!(PinType::NotConnected.name(), "NotConnected");
    assert_eq!(PinType::TriState.name(), "TriState");
}

#[test]
fn records_are_read_field_by_field() {
    assert_eq!(Node::new(&doc("(node (ref U1) (pin 12))")), node("U1", "12"));
    assert_eq!(Node::new(&doc("(node (pin A1))")), node("", "A1"));
    assert_eq!(LibraryPart::new(&doc("(libsource (lib MCU) (part CHIP))")), key("MCU", "CHIP"));
    assert_eq!(LibraryPart::new(&Sexp::Nil), key("", ""));
    assert_eq!(
        Pin::new(&doc("(pin (num 1) (name GPIO0) (type input))")),
        Ok(pin("1", "GPIO0", PinType::Input))
    );
    assert_eq!(
        Pin::new(&doc("(pin (num 1) (name GPIO0) (type weird))")),
        Err(BuildError::UnknownPinType("weird".to_string()))
    );
    assert_eq!(Pin::new(&doc("(pin (num 1))")), Err(BuildError::UnknownPinType(String::new())));
}

#[test]
fn a_component_is_read_with_its_library_source() {
    let component = Component::new(&doc(
        "(comp (ref U1) (value CHIP) (footprint QFN) (datasheet ~) (libsource (lib MCU) (part CHIP) (description \"A chip\")))",
    ));
    assert_eq!(
        component,
        Component {
            libpart: key("MCU", "CHIP"),
            value: "CHIP".to_string(),
            description: "A chip".to_string(),
            footprint: "QFN".to_string(),
            datasheet: "~".to_string(),
            reference: "U1".to_string(),
        }
    );
    let bare = Component::new(&doc("(comp (ref H1))"));
    assert_eq!(bare.libpart, key("", ""));
    assert_eq!(bare.description, "");
    assert_eq!(bare.reference, "H1");
}

#[test]
fn aliases_give_keys_in_the_library_of_the_part() {
    let record = doc("(libpart (lib MCU) (part CHIP) (aliases (alias A1) (alias A2)))");
    assert_eq!(LibraryPart::from_aliases(&record), vec![key("MCU", "A1"), key("MCU", "A2")]);
    assert_eq!(LibraryPart::from_aliases(&doc("(libpart (lib MCU) (part CHIP))")), vec![]);
    assert_eq!(LibraryPart::from_aliases(&doc("(libpart (lib MCU) (aliases))")), vec![]);
    assert_eq!(LibraryPart::from_aliases(&doc("(libpart (lib MCU) (aliases x))")), vec![key("MCU", "")]);
}

#[test]
fn sheet_metadata_is_read_from_the_title_block() {
    let sheet = Sheet::new(&doc(MINIMAL.replace("(tstamp 5F2C0A00)", "").as_str()));
    assert_eq!(
        sheet,
        Sheet { title: "Main board".to_string(), company: "ACME".to_string(), rev: "1.2".to_string() }
    );
    let empty = Sheet::new(&doc("(export (design))"));
    assert_eq!(empty, Sheet { title: String::new(), company: String::new(), rev: String::new() });
}

#[test]
fn a_minimal_document_gives_its_netlist() {
    let document = read_document(MINIMAL).unwrap();
    let netlist = Netlist::new(&document).unwrap();
    assert_eq!(netlist.sheet.title, "Main board");
    assert_eq!(netlist.sheet.company, "ACME");
    assert_eq!(netlist.sheet.rev, "1.2");
    let u1 = netlist.components.get(&"U1".to_string()).unwrap();
    assert_eq!(u1.pins, vec![(pin("1", "GPIO0", PinType::Input), Net::Label("RESET".to_string()))]);
    assert_eq!(u1.component.libpart, key("MCU", "CHIP"));
    assert_eq!(u1.value, "CHIP");
    assert_eq!(u1.footprint, "Package_DFN_QFN:QFN-56");
    assert_eq!(u1.datasheet, "https://example.com/chip.pdf");
    assert_eq!(u1.description, "A chip");
    assert_eq!(u1.reference, "U1");
    assert!(netlist.components.get(&"U2".to_string()).is_none());

    let parts = part_table(&document).unwrap();
    let own = parts.get(&key("MCU", "CHIP")).unwrap();
    let alias = parts.get(&key("MCU", "CHIP_ALT")).unwrap();
    assert_eq!(own, alias);
    assert_eq!(own, &vec![pin("1", "GPIO0", PinType::Input)]);
}

#[test]
fn the_net_table_holds_every_node_of_every_net() {
    let nets = net_table(&doc(
        "(export (nets (net (code 1) (name \"/RESET\") (node (ref U1) (pin 1)) (node (ref U2) (pin 3))) (net (code 2) (name GND) (node (ref U1) (pin 2)))))",
    ))
    .unwrap();
    assert_eq!(nets.get(&node("U1", "1")), Some(&Net::Label("RESET".to_string())));
    assert_eq!(nets.get(&node("U2", "3")), Some(&Net::Label("RESET".to_string())));
    assert_eq!(nets.get(&node("U1", "2")), Some(&Net::Custom("GND".to_string())));
    assert_eq!(nets.get(&node("U1", "3")), None);
    assert_eq!(nets.get(&node("u1", "1")), None);
}

#[test]
fn the_head_of_a_net_record_gives_no_nodes() {
    assert_eq!(NET_HEADER_FIELDS, 3);
    let nets = net_table(&doc(
        "(export (nets (net (ref X) (pin 9)) (net (code 1) (name A)) (net (code 1) (name B) (node (ref R1) (pin 1)))))",
    ))
    .unwrap();
    assert_eq!(nets.get(&node("X", "9")), None);
    assert_eq!(nets.get(&node("", "")), None);
    assert_eq!(nets.get(&node("R1", "1")), Some(&Net::Custom("B".to_string())));
}

#[test]
fn of_two_nets_for_one_pin_the_later_stays() {
    let nets = net_table(&doc(
        "(export (nets (net (code 1) (name A) (node (ref R1) (pin 1))) (net (code 2) (name B) (node (ref R1) (pin 1)))))",
    ))
    .unwrap();
    assert_eq!(nets.get(&node("R1", "1")), Some(&Net::Custom("B".to_string())));
}

#[test]
fn a_part_with_aliases_stands_under_each_of_its_keys() {
    let parts = part_table(&doc(
        "(export (libparts (libpart (lib L) (part P) (aliases (alias A) (alias B) (alias C)) (pins (pin (num 1) (name X) (type passive)) (pin (num 2) (name Y) (type 3state))))))",
    ))
    .unwrap();
    let expected = vec![pin("1", "X", PinType::Passive), pin("2", "Y", PinType::TriState)];
    for part in ["P", "A", "B", "C"] {
        assert_eq!(parts.get(&key("L", part)), Some(&expected));
    }
    assert_eq!(parts.get(&key("L", "D")), None);
    assert_eq!(parts.get(&key("M", "P")), None);
}

#[test]
fn a_part_without_a_pin_list_has_no_entry() {
    let parts = part_table(&doc(
        "(export (libparts (libpart (lib L) (part HOLE) (aliases (alias H2))) (libpart (lib L) (part EMPTY) (pins))))",
    ))
    .unwrap();
    assert_eq!(parts.get(&key("L", "HOLE")), None);
    assert_eq!(parts.get(&key("L", "H2")), None);
    assert_eq!(parts.get(&key("L", "EMPTY")), Some(&vec![]));
}

#[test]
fn of_two_parts_with_one_key_the_later_stays() {
    let parts = part_table(&doc(
        "(export (libparts (libpart (lib L) (part P) (pins (pin (num 1) (name X) (type input)))) (libpart (lib L) (part Q) (aliases (alias P)) (pins (pin (num 9) (name Z) (type output))))))",
    ))
    .unwrap();
    assert_eq!(parts.get(&key("L", "P")), Some(&vec![pin("9", "Z", PinType::Output)]));
    assert_eq!(parts.get(&key("L", "Q")), Some(&vec![pin("9", "Z", PinType::Output)]));
}

#[test]
fn pins_are_read_in_order_up_to_the_first_unknown_type() {
    let list = doc("((pin (num 1) (name A) (type input)) (pin (num 2) (name B) (type odd)) (pin (num 3) (name C) (type even)))");
    let records = list.list_items().unwrap();
    assert_eq!(read_pins(&records), Err(BuildError::UnknownPinType("odd".to_string())));
    let good = doc("((pin (num 1) (name A) (type input)) (pin (num 2) (name B) (type OUTPUT)))");
    assert_eq!(
        read_pins(&good.list_items().unwrap()),
        Ok(vec![pin("1", "A", PinType::Input), pin("2", "B", PinType::Output)])
    );
}

fn tables() -> (Table<LibraryPart, Vec<Pin>>, Table<Node, Net>) {
    let mut parts: Table<LibraryPart, Vec<Pin>> = Table::new();
    parts.insert(
        key("MCU", "CHIP"),
        vec![pin("3", "C", PinType::Output), pin("1", "A", PinType::Input), pin("2", "B", PinType::Passive)],
    );
    let mut nets: Table<Node, Net> = Table::new();
    nets.insert(node("U1", "1"), Net::Custom("ONE".to_string()));
    nets.insert(node("U1", "2"), Net::Label("TWO".to_string()));
    nets.insert(node("U1", "3"), Net::Generated("Net-(U1-Pad3)".to_string()));
    nets.insert(node("U2", "3"), Net::Custom("OTHER".to_string()));
    (parts, nets)
}

fn component(reference: &str, lib: &str, part: &str) -> Component {
    Component {
        libpart: key(lib, part),
        value: String::new(),
        description: String::new(),
        footprint: String::new(),
        datasheet: String::new(),
        reference: reference.to_string(),
    }
}

#[test]
fn a_component_has_the_pins_of_its_part_in_the_parts_order() {
    let (parts, nets) = tables();
    let joined = AssociatedComponent::correlate(component("U1", "MCU", "CHIP"), &parts, &nets).unwrap();
    assert_eq!(
        joined.pins,
        vec![
            (pin("3", "C", PinType::Output), Net::Generated("Net-(U1-Pad3)".to_string())),
            (pin("1", "A", PinType::Input), Net::Custom("ONE".to_string())),
            (pin("2", "B", PinType::Passive), Net::Label("TWO".to_string())),
        ]
    );
    assert_eq!(joined.pins.len(), parts.get(&key("MCU", "CHIP")).unwrap().len());
    assert_eq!(joined.component, component("U1", "MCU", "CHIP"));
}

#[test]
fn a_component_of_an_unknown_part_has_no_pins() {
    let (parts, nets) = tables();
    let joined = AssociatedComponent::correlate(component("H1", "Mech", "Hole"), &parts, &nets);
    assert_eq!(joined.map(|c| c.pins), Ok(vec![]));
}

#[test]
fn a_pin_without_a_net_is_a_failure_that_names_it() {
    let (parts, nets) = tables();
    let joined = AssociatedComponent::correlate(component("U2", "MCU", "CHIP"), &parts, &nets);
    assert_eq!(joined.err(), Some(BuildError::DanglingPin(node("U2", "1"))));
    let lower = AssociatedComponent::correlate(component("u1", "MCU", "CHIP"), &parts, &nets);
    assert_eq!(lower.err(), Some(BuildError::DanglingPin(node("u1", "3"))));
}

#[test]
fn the_build_fails_on_a_pin_without_a_net() {
    let text = MINIMAL.replace("(node (ref U1) (pin 1))", "(node (ref U1) (pin 2))");
    let document = read_document(&text).unwrap();
    assert_eq!(Netlist::new(&document).err(), Some(BuildError::DanglingPin(node("U1", "1"))));
}

#[test]
fn the_build_fails_on_an_unknown_pin_type() {
    let text = MINIMAL.replace("(type input)", "(type weird)");
    let document = read_document(&text).unwrap();
    assert_eq!(Netlist::new(&document).err(), Some(BuildError::UnknownPinType("weird".to_string())));
}

#[test]
fn the_build_fails_on_a_section_that_is_no_list() {
    let built = |text: &str| Netlist::new(&doc(text)).err();
    assert_eq!(built("(export (libparts) (components))"), Some(BuildError::Structure(Section::Nets)));
    assert_eq!(built("(export (nets . x) (libparts) (components))"), Some(BuildError::Structure(Section::Nets)));
    assert_eq!(built("(export (nets net) (libparts) (components))"), Some(BuildError::Structure(Section::Net)));
    assert_eq!(built("(export (nets) (components))"), Some(BuildError::Structure(Section::LibraryParts)));
    assert_eq!(built("(export (nets) (libparts))"), Some(BuildError::Structure(Section::Components)));
    assert_eq!(built("x"), Some(BuildError::Structure(Section::Nets)));
    assert!(Netlist::new(&doc("(export (nets) (libparts) (components))")).is_ok());
}

#[test]
fn the_first_failure_in_the_order_of_the_build_is_reported() {
    let built = |text: &str| Netlist::new(&doc(text)).err();
    assert_eq!(
        built("(export (nets net) (libparts (libpart (pins (pin (type odd))))))"),
        Some(BuildError::Structure(Section::Net))
    );
    assert_eq!(
        built("(export (nets) (libparts (libpart (pins (pin (type odd))))))"),
        Some(BuildError::UnknownPinType("odd".to_string()))
    );
    assert_eq!(
        built("(export (nets) (libparts (libpart (lib L) (part P) (pins (pin (num 1) (type input))))) (components (comp (ref R1) (libsource (lib L) (part P))) (comp (ref R2) (libsource (lib L) (part P)))))"),
        Some(BuildError::DanglingPin(node("R1", "1")))
    );
}

#[test]
fn failures_know_their_phase() {
    assert_eq!(BuildError::Structure(Section::Nets).phase(), Phase::Nets);
    assert_eq!(BuildError::Structure(Section::Net).phase(), Phase::Nets);
    assert_eq!(BuildError::Structure(Section::LibraryParts).phase(), Phase::LibraryParts);
    assert_eq!(BuildError::UnknownPinType("x".to_string()).phase(), Phase::LibraryParts);
    assert_eq!(BuildError::Structure(Section::Components).phase(), Phase::Correlation);
    assert_eq!(BuildError::DanglingPin(node("U1", "1")).phase(), Phase::Correlation);
}

#[test]
fn components_are_found_whatever_the_case_of_the_reference() {
    let document = read_document(MINIMAL).unwrap();
    let netlist = Netlist::new(&document).unwrap();
    let upper = netlist.find("U1").unwrap();
    let lower = netlist.find("u1").unwrap();
    assert_eq!(upper, lower);
    assert_eq!(upper.reference, "U1");
    assert!(netlist.find("U2").is_none());
    assert!(netlist.find("").is_none());
}

#[test]
fn a_lower_case_reference_is_kept_and_found_in_upper_case() {
    let document = doc("(export (nets) (libparts) (components (comp (ref sw1) (value A)) (comp (ref SW1) (value B)) (comp (ref r2))))");
    let netlist = Netlist::new(&document).unwrap();
    assert_eq!(netlist.find("Sw1").unwrap().value, "B");
    assert_eq!(netlist.find("sw1").unwrap().reference, "SW1");
    assert_eq!(netlist.components.get(&"R2".to_string()).unwrap().reference, "r2");
    assert!(netlist.components.get(&"r2".to_string()).is_none());
}

#[test]
fn the_component_table_joins_each_record() {
    let (parts, nets) = tables();
    let document = doc("(export (components (comp (ref U1) (libsource (lib MCU) (part CHIP))) (comp (ref h1))))");
    let table = component_table(&document, &parts, &nets).unwrap();
    assert_eq!(table.get(&"U1".to_string()).unwrap().pins.len(), 3);
    assert_eq!(table.get(&"H1".to_string()).unwrap().pins, vec![]);
    assert!(table.get(&"h1".to_string()).is_none());
    let lower = doc("(export (components (comp (ref u1) (libsource (lib MCU) (part CHIP)))))");
    assert_eq!(
        component_table(&lower, &parts, &nets).err(),
        Some(BuildError::DanglingPin(node("u1", "3")))
    );
}

#[test]
fn a_table_keeps_the_later_of_two_entries() {
    let mut table: Table<String, Net> = Table::new();
    assert_eq!(table.get(&"a".to_string()), None);
    table.insert("a".to_string(), Net::Custom("1".to_string()));
    table.insert("b".to_string(), Net::Custom("2".to_string()));
    table.insert("a".to_string(), Net::Custom("3".to_string()));
    assert_eq!(table.get(&"a".to_string()), Some(&Net::Custom("3".to_string())));
    assert_eq!(table.get(&"b".to_string()), Some(&Net::Custom("2".to_string())));
    assert_eq!(table.get(&"c".to_string()), None);
}

#[test]
fn keys_are_the_same_when_all_their_parts_are() {
    assert!(node("U1", "1").same_key(&node("U1", "1")));
    assert!(!node("U1", "1").same_key(&node("U1", "2")));
    assert!(!node("U1", "1").same_key(&node("U2", "1")));
    assert!(key("L", "P").same_key(&key("L", "P")));
    assert!(!key("L", "P").same_key(&key("L", "Q")));
    assert!(!key("L", "P").same_key(&key("M", "P")));
    assert!("a".to_string().same_key(&"a".to_string()));
    assert!(!"a".to_string().same_key(&"A".to_string()));
}

#[test]
fn copies_are_equal_to_what_they_copy() {
    let n = Net::Label("X".to_string());
    assert_eq!(n.clone(), n);
    let p = pin("1", "GPIO0", PinType::Input);
    assert_eq!(p.clone(), p);
    let c = component("U1", "L", "P");
    assert_eq!(c.clone(), c);
    assert_eq!(node("U1", "1").clone(), node("U1", "1"));
    assert_eq!(key("L", "P").clone(), key("L", "P"));
}
