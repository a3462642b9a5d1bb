//! The netlist: what a schematic's components are and how their pins are
//! connected.
//!
//! A document lists nets, library parts and component instances apart from
//! each other. Building a `Netlist` joins the three: each component gets the
//! pins of its library part, in the part's order, each with the net that it
//! is connected to.

use vstd::prelude::*;

use crate::sexpr::Sexp;
use crate::sexpr::Tree;
use crate::sexpr::trees;
use crate::steps::lemma_try_concat_fails;
use crate::steps::lemma_try_concat_step;
use crate::steps::lemma_try_each_fails;
use crate::steps::lemma_try_each_step;
use crate::steps::try_concat;
use crate::steps::try_each;
use crate::table::last_wins;
use crate::table::Key;
use crate::table::Table;
use crate::text::to_upper;
use crate::text::uppercase_of;
use crate::text::lowercase_of;
use crate::text::starts_with;
use crate::text::to_lower;
use crate::text::without_first;

verus! {

/// The electrical type of a pin.
#[derive(Debug, Clone, Copy, PartialEq, Eq, Structural)]
pub enum PinType {
    Input,
    Output,
    BiDirectional,
    PowerIn,
    PowerOut,
    Passive,
    NotConnected,
    TriState,
}

impl PinType {
    /// The type that a lower-case word names.
    pub open spec fn of_lowercase(word: Seq<char>) -> Option<PinType> {
        if word == "passive"@ {
            Some(PinType::Passive)
        } else if word == "input"@ {
            Some(PinType::Input)
        } else if word == "output"@ {
            Some(PinType::Output)
        } else if word == "bidi"@ {
            Some(PinType::BiDirectional)
        } else if word == "power_in"@ {
            Some(PinType::PowerIn)
        } else if word == "power_out"@ {
            Some(PinType::PowerOut)
        } else if word == "notconnected"@ {
            Some(PinType::NotConnected)
        } else if word == "3state"@ {
            Some(PinType::TriState)
        } else {
            None
        }
    }

    /// The type that a word names, whatever its case.
    pub open spec fn of_text(word: Seq<char>) -> Option<PinType> {
        PinType::of_lowercase(lowercase_of(word))
    }

    /// The name of the type, as it is written in generated files.
    pub open spec fn label(self) -> Seq<char> {
        match self {
            PinType::Input => "Input"@,
            PinType::Output => "Output"@,
            PinType::BiDirectional => "BiDirectional"@,
            PinType::PowerIn => "PowerIn"@,
            PinType::PowerOut => "PowerOut"@,
            PinType::Passive => "Passive"@,
            PinType::NotConnected => "NotConnected"@,
            PinType::TriState => "TriState"@,
        }
    }

    /// Reads a type from a word in lower case. No other word than the eight
    /// of the vocabulary names a type.
    pub fn from_lowercase(word: &str) -> (r: Option<PinType>)
        ensures
            r == PinType::of_lowercase(word@),
    {
        let w = word.to_owned();
        if w == "passive".to_owned() {
            Some(PinType::Passive)
        } else if w == "input".to_owned() {
            Some(PinType::Input)
        } else if w == "output".to_owned() {
            Some(PinType::Output)
        } else if w == "bidi".to_owned() {
            Some(PinType::BiDirectional)
        } else if w == "power_in".to_owned() {
            Some(PinType::PowerIn)
        } else if w == "power_out".to_owned() {
            Some(PinType::PowerOut)
        } else if w == "notconnected".to_owned() {
            Some(PinType::NotConnected)
        } else if w == "3state".to_owned() {
            Some(PinType::TriState)
        } else {
            None
        }
    }

    /// Reads a type from a word, whatever its case.
    pub fn from(word: &str) -> (r: Option<PinType>)
        ensures
            r == PinType::of_text(word@),
    {
        let lower = to_lower(word);
        PinType::from_lowercase(lower.as_str())
    }

    /// The name of the type, as it is written in generated files.
    pub fn name(&self) -> (r: &'static str)
        ensures
            r@ == self.label(),
    {
        match self {
            PinType::Input => "Input",
            PinType::Output => "Output",
            PinType::BiDirectional => "BiDirectional",
            PinType::PowerIn => "PowerIn",
            PinType::PowerOut => "PowerOut",
            PinType::Passive => "Passive",
            PinType::NotConnected => "NotConnected",
            PinType::TriState => "TriState",
        }
    }
}

/// The class of a net, which its name decides, with the net's identifier.
pub enum NetClass {
    Custom(Seq<char>),
    Generated(Seq<char>),
    Label(Seq<char>),
}

impl NetClass {
    /// A name that the schematic tool made up begins with `Net-(`.
    pub open spec fn is_generated_name(name: Seq<char>) -> bool {
        "Net-("@.is_prefix_of(name)
    }

    /// The name of a net label begins with `/`.
    pub open spec fn is_label_name(name: Seq<char>) -> bool {
        "/"@.is_prefix_of(name)
    }

    /// Any other name is the designer's own.
    pub open spec fn is_custom_name(name: Seq<char>) -> bool {
        !NetClass::is_generated_name(name) && !NetClass::is_label_name(name)
    }

    /// The class of the net with the given name. A label is kept without
    /// its leading `/`.
    pub open spec fn of_name(name: Seq<char>) -> NetClass {
        if NetClass::is_generated_name(name) {
            NetClass::Generated(name)
        } else if NetClass::is_label_name(name) {
            NetClass::Label(name.skip(1))
        } else {
            NetClass::Custom(name)
        }
    }

    /// The class of the net that a net record describes.
    pub open spec fn read(record: Tree) -> NetClass {
        NetClass::of_name(record.field_text("name"@))
    }

    /// The identifier of the net.
    pub open spec fn identifier(self) -> Seq<char> {
        match self {
            NetClass::Custom(id) => id,
            NetClass::Generated(id) => id,
            NetClass::Label(id) => id,
        }
    }
}

/// A net, classified by its name.
#[derive(Debug, PartialEq, Eq)]
pub enum Net {
    Custom(String),
    Generated(String),
    Label(String),
}

impl DeepView for Net {
    type V = NetClass;

    open spec fn deep_view(&self) -> NetClass {
        match self {
            Net::Custom(id) => NetClass::Custom(id@),
            Net::Generated(id) => NetClass::Generated(id@),
            Net::Label(id) => NetClass::Label(id@),
        }
    }
}

impl View for Net {
    type V = NetClass;

    open spec fn view(&self) -> NetClass {
        self.deep_view()
    }
}

impl Clone for Net {
    fn clone(&self) -> (r: Self)
        ensures
            r@ == self@,
    {
        match self {
            Net::Custom(id) => Net::Custom(id.clone()),
            Net::Generated(id) => Net::Generated(id.clone()),
            Net::Label(id) => Net::Label(id.clone()),
        }
    }
}

/// Every name falls into exactly one of the three classes.
pub proof fn lemma_net_classes_partition(name: Seq<char>)
    ensures
        NetClass::is_generated_name(name) || NetClass::is_label_name(name)
            || NetClass::is_custom_name(name),
        !(NetClass::is_generated_name(name) && NetClass::is_label_name(name)),
        !(NetClass::is_generated_name(name) && NetClass::is_custom_name(name)),
        !(NetClass::is_label_name(name) && NetClass::is_custom_name(name)),
        NetClass::is_generated_name(name) <==> NetClass::of_name(name) is Generated,
        NetClass::is_label_name(name) <==> NetClass::of_name(name) is Label,
        NetClass::is_custom_name(name) <==> NetClass::of_name(name) is Custom,
        NetClass::of_name(name) is Generated ==> NetClass::of_name(name).identifier() == name,
        NetClass::of_name(name) is Custom ==> NetClass::of_name(name).identifier() == name,
        NetClass::of_name(name) is Label ==> seq!['/'] + NetClass::of_name(name).identifier()
            == name,
{
    reveal_strlit("Net-(");
    reveal_strlit("/");
    if NetClass::is_generated_name(name) {
        assert(name[0] == "Net-("@[0]);
    }
    if NetClass::is_label_name(name) {
        assert(name[0] == "/"@[0]);
        assert(seq!['/'] + name.skip(1) =~= name);
    }
}

impl Net {
    /// Classifies a net by its name.
    pub fn from_name(name: String) -> (r: Net)
        ensures
            r@ == NetClass::of_name(name@),
    {
        if starts_with(name.as_str(), "Net-(") {
            Net::Generated(name)
        } else if starts_with(name.as_str(), "/") {
            proof {
                reveal_strlit("/");
            }
            Net::Label(without_first(name.as_str()))
        } else {
            Net::Custom(name)
        }
    }

    /// The net that a net record describes: its `name` field, classified.
    pub fn new(net: &Sexp) -> (r: Net)
        ensures
            r@ == NetClass::read(net@),
    {
        Net::from_name(net.field_text("name"))
    }

    /// The identifier of the net.
    pub fn identifier(&self) -> (r: &String)
        ensures
            r@ == self@.identifier(),
    {
        match self {
            Net::Custom(id) => id,
            Net::Generated(id) => id,
            Net::Label(id) => id,
        }
    }
}

/// One pin of one component instance, by which its net is found.
#[verifier::ext_equal]
pub struct PinNode {
    pub reference: Seq<char>,
    pub pin: Seq<char>,
}

impl PinNode {
    /// The pin that a node record of a net names.
    pub open spec fn read(record: Tree) -> PinNode {
        PinNode { reference: record.field_text("ref"@), pin: record.field_text("pin"@) }
    }
}

/// One pin of one component instance: the reference designator of the
/// component and the number of the pin.
#[derive(Debug, Hash, PartialEq, Eq, PartialOrd, Ord)]
pub struct Node {
    pub reference: String,
    pub pin: String,
}

impl DeepView for Node {
    type V = PinNode;

    open spec fn deep_view(&self) -> PinNode {
        PinNode { reference: self.reference@, pin: self.pin@ }
    }
}

impl View for Node {
    type V = PinNode;

    open spec fn view(&self) -> PinNode {
        self.deep_view()
    }
}

impl Clone for Node {
    fn clone(&self) -> (r: Self)
        ensures
            r@ == self@,
    {
        Node { reference: self.reference.clone(), pin: self.pin.clone() }
    }
}

impl Key for Node {
    fn same_key(&self, other: &Self) -> (r: bool) {
        self.reference == other.reference && self.pin == other.pin
    }
}

impl Node {
    /// The pin that a node record of a net names: its `ref` and `pin`
    /// fields.
    pub fn new(node: &Sexp) -> (r: Node)
        ensures
            r@ == PinNode::read(node@),
    {
        Node { reference: node.field_text("ref"), pin: node.field_text("pin") }
    }
}

/// The identity of a library part: the library and the name of the part in
/// it.
#[verifier::ext_equal]
pub struct LibraryPartKey {
    pub lib: Seq<char>,
    pub part: Seq<char>,
}

impl LibraryPartKey {
    /// The key under which a record names its part: its `lib` and `part`
    /// fields.
    pub open spec fn read(record: Tree) -> LibraryPartKey {
        LibraryPartKey { lib: record.field_text("lib"@), part: record.field_text("part"@) }
    }

    /// The key that one element of the alias list of `record` gives: the
    /// record's library and the name at the element's second place.
    pub open spec fn alias(record: Tree, element: Tree) -> LibraryPartKey {
        LibraryPartKey { lib: record.field_text("lib"@), part: element.item(1).joined() }
    }

    /// The keys of the aliases that a library-part record declares, in
    /// order. A record without an alias list declares none.
    pub open spec fn aliases(record: Tree) -> Seq<LibraryPartKey> {
        match record.child("aliases"@).elements() {
            Some(elements) => elements.map_values(
                |element: Tree| LibraryPartKey::alias(record, element),
            ),
            None => Seq::empty(),
        }
    }

    /// All the keys under which a library-part record publishes its pins:
    /// its aliases, then its own name.
    pub open spec fn all(record: Tree) -> Seq<LibraryPartKey> {
        LibraryPartKey::aliases(record).push(LibraryPartKey::read(record))
    }
}

/// The identity of a library part.
#[derive(Debug, Hash, PartialEq, Eq, PartialOrd, Ord)]
pub struct LibraryPart {
    pub lib: String,
    pub part: String,
}

impl DeepView for LibraryPart {
    type V = LibraryPartKey;

    open spec fn deep_view(&self) -> LibraryPartKey {
        LibraryPartKey { lib: self.lib@, part: self.part@ }
    }
}

impl View for LibraryPart {
    type V = LibraryPartKey;

    open spec fn view(&self) -> LibraryPartKey {
        self.deep_view()
    }
}

impl Clone for LibraryPart {
    fn clone(&self) -> (r: Self)
        ensures
            r@ == self@,
    {
        LibraryPart { lib: self.lib.clone(), part: self.part.clone() }
    }
}

impl Key for LibraryPart {
    fn same_key(&self, other: &Self) -> (r: bool) {
        self.lib == other.lib && self.part == other.part
    }
}

impl LibraryPart {
    /// The key under which a record names its part.
    pub fn new(value: &Sexp) -> (r: LibraryPart)
        ensures
            r@ == LibraryPartKey::read(value@),
    {
        LibraryPart { lib: value.field_text("lib"), part: value.field_text("part") }
    }

    /// The keys of the aliases that a library-part record declares, in
    /// order.
    pub fn from_aliases(value: &Sexp) -> (r: Vec<LibraryPart>)
        ensures
            r.deep_view() == LibraryPartKey::aliases(value@),
    {
        let mut out: Vec<LibraryPart> = Vec::new();
        let listed = match value.get("aliases") {
            Some(list) => list.list_items(),
            None => None,
        };
        match listed {
            Some(elements) => {
                let mut i: usize = 0;
                while i < elements.len()
                    invariant
                        i <= elements.len(),
                        value@.child("aliases"@).elements() == Some(trees(elements@)),
                        out.deep_view() == LibraryPartKey::aliases(value@).take(i as int),
                    decreases elements.len() - i,
                {
                    let key = LibraryPart {
                        lib: value.field_text("lib"),
                        part: elements[i].item_text(1),
                    };
                    let ghost before = out.deep_view();
                    out.push(key);
                    proof {
                        assert(trees(elements@)[i as int] == elements[i as int]@);
                        assert(out.deep_view() =~= before.push(key@));
                        assert(LibraryPartKey::aliases(value@).take(i + 1)
                            =~= LibraryPartKey::aliases(value@).take(i as int).push(key@));
                    }
                    i = i + 1;
                }
                assert(LibraryPartKey::aliases(value@).take(i as int)
                    =~= LibraryPartKey::aliases(value@));
            },
            None => {
                assert(out.deep_view() =~= Seq::empty());
            },
        }
        out
    }
}

/// The part of a document that has not the shape it must have.
#[derive(Debug, Clone, Copy, PartialEq, Eq, Structural)]
pub enum Section {
    /// The list of nets.
    Nets,
    /// One net of the list of nets.
    Net,
    /// The list of library parts.
    LibraryParts,
    /// The list of component instances.
    Components,
}

/// The step of the build in which a failure came up.
#[derive(Debug, Clone, Copy, PartialEq, Eq, Structural)]
pub enum Phase {
    /// Reading the nets.
    Nets,
    /// Reading the library parts.
    LibraryParts,
    /// Joining the components with their pins and nets.
    Correlation,
}

/// Why a document gives no netlist, as a mathematical value.
pub enum BuildFailure {
    Structure(Section),
    UnknownPinType(Seq<char>),
    DanglingPin(PinNode),
}

/// Why a document gives no netlist.
#[derive(Debug, PartialEq, Eq)]
pub enum BuildError {
    /// A section that must be a list is none, or is missing.
    Structure(Section),
    /// A pin of a library part has an electrical type that is not in the
    /// vocabulary; the word is kept as it was written.
    UnknownPinType(String),
    /// A component has a pin that no net connects.
    DanglingPin(Node),
}

impl DeepView for BuildError {
    type V = BuildFailure;

    open spec fn deep_view(&self) -> BuildFailure {
        match self {
            BuildError::Structure(section) => BuildFailure::Structure(*section),
            BuildError::UnknownPinType(word) => BuildFailure::UnknownPinType(word@),
            BuildError::DanglingPin(node) => BuildFailure::DanglingPin(node@),
        }
    }
}

impl View for BuildError {
    type V = BuildFailure;

    open spec fn view(&self) -> BuildFailure {
        self.deep_view()
    }
}

impl BuildFailure {
    /// The step of the build in which the failure comes up.
    pub open spec fn phase(self) -> Phase {
        match self {
            BuildFailure::Structure(Section::Nets) => Phase::Nets,
            BuildFailure::Structure(Section::Net) => Phase::Nets,
            BuildFailure::Structure(Section::LibraryParts) => Phase::LibraryParts,
            BuildFailure::Structure(Section::Components) => Phase::Correlation,
            BuildFailure::UnknownPinType(_) => Phase::LibraryParts,
            BuildFailure::DanglingPin(_) => Phase::Correlation,
        }
    }
}

impl BuildError {
    /// The step of the build in which the failure came up.
    pub fn phase(&self) -> (r: Phase)
        ensures
            r == self@.phase(),
    {
        match self {
            BuildError::Structure(Section::Nets) => Phase::Nets,
            BuildError::Structure(Section::Net) => Phase::Nets,
            BuildError::Structure(Section::LibraryParts) => Phase::LibraryParts,
            BuildError::Structure(Section::Components) => Phase::Correlation,
            BuildError::UnknownPinType(_) => Phase::LibraryParts,
            BuildError::DanglingPin(_) => Phase::Correlation,
        }
    }
}

/// A pin as a library part declares it.
#[verifier::ext_equal]
pub struct PinDefinition {
    pub num: Seq<char>,
    pub name: Seq<char>,
    pub ty: PinType,
}

impl PinDefinition {
    /// The pin that a pin record declares: its `num`, `name` and `type`
    /// fields. A type outside the vocabulary is a failure that carries the
    /// word.
    pub open spec fn read(record: Tree) -> Result<PinDefinition, BuildFailure> {
        match PinType::of_text(record.field_text("type"@)) {
            Some(ty) => Ok(
                PinDefinition {
                    num: record.field_text("num"@),
                    name: record.field_text("name"@),
                    ty,
                },
            ),
            None => Err(BuildFailure::UnknownPinType(record.field_text("type"@))),
        }
    }
}

/// A pin as a library part declares it.
#[derive(Debug, PartialEq, Eq)]
pub struct Pin {
    pub num: String,
    pub name: String,
    pub ty: PinType,
}

impl DeepView for Pin {
    type V = PinDefinition;

    open spec fn deep_view(&self) -> PinDefinition {
        PinDefinition { num: self.num@, name: self.name@, ty: self.ty }
    }
}

impl View for Pin {
    type V = PinDefinition;

    open spec fn view(&self) -> PinDefinition {
        self.deep_view()
    }
}

impl Clone for Pin {
    fn clone(&self) -> (r: Self)
        ensures
            r@ == self@,
    {
        Pin { num: self.num.clone(), name: self.name.clone(), ty: self.ty }
    }
}

/// What a result of the build stands for.
pub open spec fn outcome<T: DeepView>(r: Result<T, BuildError>) -> Result<T::V, BuildFailure> {
    match r {
        Ok(value) => Ok(value.deep_view()),
        Err(e) => Err(e@),
    }
}

impl Pin {
    /// The pin that a pin record declares.
    pub fn new(value: &Sexp) -> (r: Result<Pin, BuildError>)
        ensures
            outcome(r) == PinDefinition::read(value@),
    {
        let word = value.field_text("type");
        match PinType::from(word.as_str()) {
            Some(ty) => Ok(Pin { num: value.field_text("num"), name: value.field_text("name"), ty }),
            None => Err(BuildError::UnknownPinType(word)),
        }
    }
}

/// A placed symbol.
#[verifier::ext_equal]
pub struct ComponentInstance {
    pub libpart: LibraryPartKey,
    pub value: Seq<char>,
    pub description: Seq<char>,
    pub footprint: Seq<char>,
    pub datasheet: Seq<char>,
    pub reference: Seq<char>,
}

impl ComponentInstance {
    /// The instance that a component record describes. The library part and
    /// the description are read from its `libsource` field.
    pub open spec fn read(record: Tree) -> ComponentInstance {
        ComponentInstance {
            libpart: LibraryPartKey::read(record.child("libsource"@)),
            description: record.child("libsource"@).field_text("description"@),
            value: record.field_text("value"@),
            footprint: record.field_text("footprint"@),
            datasheet: record.field_text("datasheet"@),
            reference: record.field_text("ref"@),
        }
    }
}

/// A placed symbol.
#[derive(Debug, PartialEq, Eq)]
pub struct Component {
    pub libpart: LibraryPart,
    pub value: String,
    pub description: String,
    pub footprint: String,
    pub datasheet: String,
    pub reference: String,
}

impl DeepView for Component {
    type V = ComponentInstance;

    open spec fn deep_view(&self) -> ComponentInstance {
        ComponentInstance {
            libpart: self.libpart@,
            value: self.value@,
            description: self.description@,
            footprint: self.footprint@,
            datasheet: self.datasheet@,
            reference: self.reference@,
        }
    }
}

impl View for Component {
    type V = ComponentInstance;

    open spec fn view(&self) -> ComponentInstance {
        self.deep_view()
    }
}

impl Clone for Component {
    fn clone(&self) -> (r: Self)
        ensures
            r@ == self@,
    {
        Component {
            libpart: self.libpart.clone(),
            value: self.value.clone(),
            description: self.description.clone(),
            footprint: self.footprint.clone(),
            datasheet: self.datasheet.clone(),
            reference: self.reference.clone(),
        }
    }
}

impl Component {
    /// The instance that a component record describes.
    pub fn new(value: &Sexp) -> (r: Component)
        ensures
            r@ == ComponentInstance::read(value@),
    {
        let nil = Sexp::Nil;
        let source = child(value, "libsource", &nil);
        Component {
            libpart: LibraryPart::new(source),
            description: source.field_text("description"),
            value: value.field_text("value"),
            footprint: value.field_text("footprint"),
            datasheet: value.field_text("datasheet"),
            reference: value.field_text("ref"),
        }
    }
}

/// What a sheet says of itself.
#[verifier::ext_equal]
pub struct SheetMetadata {
    pub title: Seq<char>,
    pub company: Seq<char>,
    pub rev: Seq<char>,
}

impl SheetMetadata {
    /// The title block of the document's sheet.
    pub open spec fn block(doc: Tree) -> Tree {
        doc.child("design"@).child("sheet"@).child("title_block"@)
    }

    /// The metadata in the title block of the document's sheet. What the
    /// block does not hold is the empty text.
    pub open spec fn read(doc: Tree) -> SheetMetadata {
        SheetMetadata {
            title: SheetMetadata::block(doc).field_text("title"@),
            company: SheetMetadata::block(doc).field_text("company"@),
            rev: SheetMetadata::block(doc).field_text("rev"@),
        }
    }
}

/// What a sheet says of itself.
#[derive(Debug, PartialEq, Eq)]
pub struct Sheet {
    pub title: String,
    pub company: String,
    pub rev: String,
}

impl DeepView for Sheet {
    type V = SheetMetadata;

    open spec fn deep_view(&self) -> SheetMetadata {
        SheetMetadata { title: self.title@, company: self.company@, rev: self.rev@ }
    }
}

impl View for Sheet {
    type V = SheetMetadata;

    open spec fn view(&self) -> SheetMetadata {
        self.deep_view()
    }
}

/// The value of the field `key` of a record, and `nil` where the record has
/// no such field.
fn child<'a>(record: &'a Sexp, key: &str, nil: &'a Sexp) -> (r: &'a Sexp)
    requires
        nil@ is Nil,
    ensures
        r@ == record@.child(key@),
{
    match record.get(key) {
        Some(value) => value,
        None => nil,
    }
}

impl Sheet {
    /// The metadata in the title block of the document's sheet.
    pub fn new(doc: &Sexp) -> (r: Sheet)
        ensures
            r@ == SheetMetadata::read(doc@),
    {
        let nil = Sexp::Nil;
        let block = child(child(child(doc, "design", &nil), "sheet", &nil), "title_block", &nil);
        Sheet {
            title: block.field_text("title"),
            company: block.field_text("company"),
            rev: block.field_text("rev"),
        }
    }
}

/// A component with the pins of its library part, each with its net.
#[verifier::ext_equal]
pub struct Correlation {
    pub component: ComponentInstance,
    pub pins: Seq<(PinDefinition, NetClass)>,
}

/// A component with the pins of its library part, in the part's order, each
/// with the net that it is connected to.
#[derive(Debug, PartialEq, Eq)]
pub struct AssociatedComponent {
    pub component: Component,
    pub pins: Vec<(Pin, Net)>,
}

impl DeepView for AssociatedComponent {
    type V = Correlation;

    open spec fn deep_view(&self) -> Correlation {
        Correlation { component: self.component@, pins: self.pins.deep_view() }
    }
}

impl View for AssociatedComponent {
    type V = Correlation;

    open spec fn view(&self) -> Correlation {
        self.deep_view()
    }
}

impl std::ops::Deref for AssociatedComponent {
    type Target = Component;

    fn deref(&self) -> (r: &Component)
        ensures
            r@ == self@.component,
    {
        &self.component
    }
}

/// The number of elements at the head of a net record that say what the net
/// is. The nodes of the net follow them.
pub const NET_HEADER_FIELDS: usize = 3;

/// The sequence without its first `n` items; empty where it has fewer.
pub open spec fn tail_from<A>(items: Seq<A>, n: nat) -> Seq<A> {
    if n <= items.len() {
        items.skip(n as int)
    } else {
        Seq::empty()
    }
}

/// The table entries that one net record gives: one for each of its nodes,
/// all with the class of the net. A record that is no list is a failure.
pub open spec fn net_record_entries(record: Tree) -> Result<
    Seq<(PinNode, NetClass)>,
    BuildFailure,
> {
    match record.elements() {
        None => Err(BuildFailure::Structure(Section::Net)),
        Some(elements) => Ok(
            tail_from(elements, NET_HEADER_FIELDS as nat).map_values(
                |node: Tree| (PinNode::read(node), NetClass::read(record)),
            ),
        ),
    }
}

/// Reads the entries of one net record.
pub open spec fn net_reader() -> spec_fn(Tree) -> Result<Seq<(PinNode, NetClass)>, BuildFailure> {
    |record: Tree| net_record_entries(record)
}

/// The entries of the net table, in the order of the document.
pub open spec fn net_entries(doc: Tree) -> Result<Seq<(PinNode, NetClass)>, BuildFailure> {
    match doc.child("nets"@).elements() {
        None => Err(BuildFailure::Structure(Section::Nets)),
        Some(records) => try_concat(records, net_reader()),
    }
}

/// Reads one pin record.
pub open spec fn pin_reader() -> spec_fn(Tree) -> Result<PinDefinition, BuildFailure> {
    |record: Tree| PinDefinition::read(record)
}

/// The table entries that one library-part record gives: its pin list
/// under each of its keys. A record without a pin list gives none.
pub open spec fn part_entries(record: Tree) -> Result<
    Seq<(LibraryPartKey, Seq<PinDefinition>)>,
    BuildFailure,
> {
    match record.child("pins"@).elements() {
        None => Ok(Seq::empty()),
        Some(pin_records) => match try_each(pin_records, pin_reader()) {
            Err(e) => Err(e),
            Ok(pins) => Ok(
                LibraryPartKey::all(record).map_values(|key: LibraryPartKey| (key, pins)),
            ),
        },
    }
}

/// Reads the entries of one library-part record.
pub open spec fn part_reader() -> spec_fn(Tree) -> Result<
    Seq<(LibraryPartKey, Seq<PinDefinition>)>,
    BuildFailure,
> {
    |record: Tree| part_entries(record)
}

/// The entries of the library part table, in the order of the document.
pub open spec fn library_entries(doc: Tree) -> Result<
    Seq<(LibraryPartKey, Seq<PinDefinition>)>,
    BuildFailure,
> {
    match doc.child("libparts"@).elements() {
        None => Err(BuildFailure::Structure(Section::LibraryParts)),
        Some(records) => try_concat(records, part_reader()),
    }
}

/// Gives a pin of the component `reference` its net. A pin that the net
/// table does not hold is a failure that names the pin.
pub open spec fn connect(reference: Seq<char>, nets: Map<PinNode, NetClass>) -> spec_fn(
    PinDefinition,
) -> Result<(PinDefinition, NetClass), BuildFailure> {
    |pin: PinDefinition|
        {
            let node = PinNode { reference, pin: pin.num };
            if nets.contains_key(node) {
                Ok((pin, nets[node]))
            } else {
                Err(BuildFailure::DanglingPin(node))
            }
        }
}

/// A component with its pins and their nets. A component whose library part
/// the table does not hold has no pins.
pub open spec fn associate(
    instance: ComponentInstance,
    parts: Map<LibraryPartKey, Seq<PinDefinition>>,
    nets: Map<PinNode, NetClass>,
) -> Result<Correlation, BuildFailure> {
    if parts.contains_key(instance.libpart) {
        match try_each(parts[instance.libpart], connect(instance.reference, nets)) {
            Ok(pins) => Ok(Correlation { component: instance, pins }),
            Err(e) => Err(e),
        }
    } else {
        Ok(Correlation { component: instance, pins: Seq::empty() })
    }
}

/// The entry that a component record gives: the component with its pins,
/// under its reference designator in upper case.
pub open spec fn component_reader(
    parts: Map<LibraryPartKey, Seq<PinDefinition>>,
    nets: Map<PinNode, NetClass>,
) -> spec_fn(Tree) -> Result<(Seq<char>, Correlation), BuildFailure> {
    |record: Tree|
        match associate(ComponentInstance::read(record), parts, nets) {
            Ok(component) => Ok((uppercase_of(record.field_text("ref"@)), component)),
            Err(e) => Err(e),
        }
}

/// The entries of the component table, in the order of the document.
pub open spec fn component_entries(
    doc: Tree,
    parts: Map<LibraryPartKey, Seq<PinDefinition>>,
    nets: Map<PinNode, NetClass>,
) -> Result<Seq<(Seq<char>, Correlation)>, BuildFailure> {
    match doc.child("components"@).elements() {
        None => Err(BuildFailure::Structure(Section::Components)),
        Some(records) => try_each(records, component_reader(parts, nets)),
    }
}

/// A netlist: the sheet's metadata and the components by their reference
/// designators in upper case.
#[verifier::ext_equal]
pub struct NetlistModel {
    pub sheet: SheetMetadata,
    pub components: Map<Seq<char>, Correlation>,
}

impl NetlistModel {
    /// The component with the given reference designator, whatever the case
    /// it is written in.
    pub open spec fn find(self, reference: Seq<char>) -> Option<Correlation> {
        if self.components.contains_key(uppercase_of(reference)) {
            Some(self.components[uppercase_of(reference)])
        } else {
            None
        }
    }
}

/// The netlist that a document describes: the nets are read, then the
/// library parts, then the components are joined with both. The first
/// failure on the way is the outcome.
pub open spec fn netlist_of(doc: Tree) -> Result<NetlistModel, BuildFailure> {
    match net_entries(doc) {
        Err(e) => Err(e),
        Ok(nets) => match library_entries(doc) {
            Err(e) => Err(e),
            Ok(parts) => match component_entries(doc, last_wins(parts), last_wins(nets)) {
                Err(e) => Err(e),
                Ok(components) => Ok(
                    NetlistModel {
                        sheet: SheetMetadata::read(doc),
                        components: last_wins(components),
                    },
                ),
            },
        },
    }
}

/// The elements of the section `key` of a document.
fn section<'a>(doc: &'a Sexp, key: &str) -> (r: Option<Vec<&'a Sexp>>)
    ensures
        r is Some == doc@.child(key@).elements() is Some,
        r matches Some(records) ==> doc@.child(key@).elements() == Some(trees(records@)),
{
    match doc.get(key) {
        Some(list) => list.list_items(),
        None => None,
    }
}

/// Reads the nets of a document into a table from pins to nets.
pub fn net_table(doc: &Sexp) -> (r: Result<Table<Node, Net>, BuildError>)
    ensures
        match r {
            Ok(table) => net_entries(doc@) == Ok::<_, BuildFailure>(table.history()),
            Err(e) => net_entries(doc@) == Err::<Seq<(PinNode, NetClass)>, _>(e@),
        },
{
    let records = match section(doc, "nets") {
        Some(records) => records,
        None => {
            return Err(BuildError::Structure(Section::Nets));
        },
    };
    let mut table: Table<Node, Net> = Table::new();
    let mut i: usize = 0;
    while i < records.len()
        invariant
            i <= records.len(),
            doc@.child("nets"@).elements() == Some(trees(records@)),
            try_concat(trees(records@).take(i as int), net_reader()) == Ok::<_, BuildFailure>(
                table.history(),
            ),
        decreases records.len() - i,
    {
        let record = records[i];
        proof {
            assert(trees(records@)[i as int] == record@);
            lemma_try_concat_step(trees(records@), net_reader(), i as int);
        }
        let elements = match record.list_items() {
            Some(elements) => elements,
            None => {
                proof {
                    lemma_try_concat_fails(trees(records@), net_reader(), i + 1);
                }
                return Err(BuildError::Structure(Section::Net));
            },
        };
        let ghost before = table.history();
        let ghost nodes = tail_from(trees(elements@), NET_HEADER_FIELDS as nat);
        let ghost entries = net_record_entries(record@)->Ok_0;
        let mut j: usize = if elements.len() < NET_HEADER_FIELDS {
            elements.len()
        } else {
            NET_HEADER_FIELDS
        };
        let ghost first = j;
        let class = Net::new(record);
        while j < elements.len()
            invariant
                first <= j <= elements.len(),
                first == NET_HEADER_FIELDS || first == elements.len(),
                first <= NET_HEADER_FIELDS,
                record@.elements() == Some(trees(elements@)),
                class@ == NetClass::read(record@),
                entries == net_record_entries(record@)->Ok_0,
                table.history() == before + entries.take(j - first),
            decreases elements.len() - j,
        {
            let net = class.clone();
            let node = Node::new(elements[j]);
            proof {
                assert(trees(elements@)[j as int] == elements[j as int]@);
                assert(entries[j - first] == (node@, net@));
                assert(entries.take(j - first + 1) =~= entries.take(j - first).push(
                    (node@, net@),
                ));
                assert(before + entries.take(j - first + 1) =~= (before + entries.take(
                    j - first,
                )).push((node@, net@)));
            }
            table.insert(node, net);
            j = j + 1;
        }
        proof {
            assert(entries.take(j - first) =~= entries);
        }
        i = i + 1;
    }
    proof {
        assert(trees(records@).take(i as int) =~= trees(records@));
    }
    Ok(table)
}

/// A copy of a pin list.
fn clone_pins(pins: &Vec<Pin>) -> (r: Vec<Pin>)
    ensures
        r.deep_view() == pins.deep_view(),
{
    let mut out: Vec<Pin> = Vec::new();
    let mut i: usize = 0;
    while i < pins.len()
        invariant
            i <= pins.len(),
            out.deep_view() == pins.deep_view().take(i as int),
        decreases pins.len() - i,
    {
        let ghost before = out.deep_view();
        let pin = pins[i].clone();
        out.push(pin);
        proof {
            assert(out.deep_view() =~= before.push(pin@));
            assert(pins.deep_view().take(i + 1) =~= pins.deep_view().take(i as int).push(pin@));
        }
        i = i + 1;
    }
    proof {
        assert(pins.deep_view().take(i as int) =~= pins.deep_view());
    }
    out
}

/// Reads the pins that a list of pin records declares, in order.
pub fn read_pins(records: &Vec<&Sexp>) -> (r: Result<Vec<Pin>, BuildError>)
    ensures
        outcome(r) == try_each(trees(records@), pin_reader()),
{
    let mut out: Vec<Pin> = Vec::new();
    let mut i: usize = 0;
    assert(out.deep_view() =~= Seq::empty());
    while i < records.len()
        invariant
            i <= records.len(),
            try_each(trees(records@).take(i as int), pin_reader()) == Ok::<_, BuildFailure>(
                out.deep_view(),
            ),
        decreases records.len() - i,
    {
        proof {
            assert(trees(records@)[i as int] == records[i as int]@);
            lemma_try_each_step(trees(records@), pin_reader(), i as int);
        }
        let ghost before = out.deep_view();
        match Pin::new(records[i]) {
            Ok(pin) => {
                out.push(pin);
                proof {
                    assert(out.deep_view() =~= before.push(pin@));
                }
            },
            Err(e) => {
                proof {
                    lemma_try_each_fails(trees(records@), pin_reader(), i + 1);
                }
                return Err(e);
            },
        }
        i = i + 1;
    }
    proof {
        assert(trees(records@).take(i as int) =~= trees(records@));
    }
    Ok(out)
}

/// Reads the library parts of a document into a table from the keys of the
/// parts to their pins. The pins of a part stand under its own key and
/// under the key of each of its aliases.
pub fn part_table(doc: &Sexp) -> (r: Result<Table<LibraryPart, Vec<Pin>>, BuildError>)
    ensures
        match r {
            Ok(table) => library_entries(doc@) == Ok::<_, BuildFailure>(table.history()),
            Err(e) => library_entries(doc@) == Err::<
                Seq<(LibraryPartKey, Seq<PinDefinition>)>,
                _,
            >(e@),
        },
{
    let records = match section(doc, "libparts") {
        Some(records) => records,
        None => {
            return Err(BuildError::Structure(Section::LibraryParts));
        },
    };
    let mut table: Table<LibraryPart, Vec<Pin>> = Table::new();
    let mut i: usize = 0;
    while i < records.len()
        invariant
            i <= records.len(),
            doc@.child("libparts"@).elements() == Some(trees(records@)),
            try_concat(trees(records@).take(i as int), part_reader()) == Ok::<_, BuildFailure>(
                table.history(),
            ),
        decreases records.len() - i,
    {
        let record = records[i];
        proof {
            assert(trees(records@)[i as int] == record@);
            lemma_try_concat_step(trees(records@), part_reader(), i as int);
        }
        match section(record, "pins") {
            None => {
                assert(table.history() + Seq::empty() =~= table.history());
            },
            Some(pin_records) => {
                let pins = match read_pins(&pin_records) {
                    Ok(pins) => pins,
                    Err(e) => {
                        proof {
                            lemma_try_concat_fails(trees(records@), part_reader(), i + 1);
                        }
                        return Err(e);
                    },
                };
                let mut keys = LibraryPart::from_aliases(record);
                let ghost aliases = keys.deep_view();
                let own = LibraryPart::new(record);
                keys.push(own);
                let ghost before = table.history();
                let ghost entries = part_entries(record@)->Ok_0;
                proof {
                    assert(keys.deep_view() =~= LibraryPartKey::all(record@));
                }
                let mut j: usize = 0;
                while j < keys.len()
                    invariant
                        j <= keys.len(),
                        keys.deep_view() == LibraryPartKey::all(record@),
                        entries == LibraryPartKey::all(record@).map_values(
                            |key: LibraryPartKey| (key, pins.deep_view()),
                        ),
                        table.history() == before + entries.take(j as int),
                    decreases keys.len() - j,
                {
                    let key = keys[j].clone();
                    let copy = clone_pins(&pins);
                    proof {
                        assert(keys.deep_view()[j as int] == key@);
                        assert(entries[j as int] == (key@, copy.deep_view()));
                        assert(before + entries.take(j + 1) =~= (before + entries.take(
                            j as int,
                        )).push((key@, copy.deep_view())));
                    }
                    table.insert(key, copy);
                    j = j + 1;
                }
                proof {
                    assert(entries.take(j as int) =~= entries);
                }
            },
        }
        i = i + 1;
    }
    proof {
        assert(trees(records@).take(i as int) =~= trees(records@));
    }
    Ok(table)
}

impl AssociatedComponent {
    /// Joins a component with the pins of its library part and with their
    /// nets. A component whose library part is not in the table has no pins;
    /// a pin that the net table does not hold is a failure that names it.
    pub fn correlate(
        component: Component,
        parts: &Table<LibraryPart, Vec<Pin>>,
        nets: &Table<Node, Net>,
    ) -> (r: Result<AssociatedComponent, BuildError>)
        ensures
            outcome(r) == associate(component@, parts.model(), nets.model()),
    {
        let mut out: Vec<(Pin, Net)> = Vec::new();
        match parts.get(&component.libpart) {
            None => {
                assert(out.deep_view() =~= Seq::empty());
            },
            Some(pins) => {
                let ghost declared = pins.deep_view();
                let ghost f = connect(component@.reference, nets.model());
                let mut i: usize = 0;
                assert(out.deep_view() =~= Seq::empty());
                while i < pins.len()
                    invariant
                        i <= pins.len(),
                        declared == pins.deep_view(),
                        parts.model().contains_key(component@.libpart),
                        parts.model()[component@.libpart] == declared,
                        f == connect(component@.reference, nets.model()),
                        try_each(declared.take(i as int), f) == Ok::<_, BuildFailure>(
                            out.deep_view(),
                        ),
                    decreases pins.len() - i,
                {
                    proof {
                        assert(declared[i as int] == pins[i as int]@);
                        lemma_try_each_step(declared, f, i as int);
                    }
                    let pin = pins[i].clone();
                    let node = Node { reference: component.reference.clone(), pin: pin.num.clone() };
                    let ghost before = out.deep_view();
                    match nets.get(&node) {
                        Some(net) => {
                            let net = net.clone();
                            out.push((pin, net));
                            proof {
                                assert(out.deep_view() =~= before.push((pin@, net@)));
                            }
                        },
                        None => {
                            proof {
                                assert(node@ =~= PinNode {
                                    reference: component@.reference,
                                    pin: declared[i as int].num,
                                });
                                assert(f(declared[i as int]) == Err::<
                                    (PinDefinition, NetClass),
                                    _,
                                >(BuildFailure::DanglingPin(node@)));
                                lemma_try_each_fails(declared, f, i + 1);
                            }
                            return Err(BuildError::DanglingPin(node));
                        },
                    }
                    i = i + 1;
                }
                proof {
                    assert(declared.take(i as int) =~= declared);
                }
            },
        }
        Ok(AssociatedComponent { component, pins: out })
    }
}

/// Joins the components of a document with the pins of their library parts
/// and with their nets, into a table from reference designators in upper
/// case to components.
pub fn component_table(
    doc: &Sexp,
    parts: &Table<LibraryPart, Vec<Pin>>,
    nets: &Table<Node, Net>,
) -> (r: Result<Table<String, AssociatedComponent>, BuildError>)
    ensures
        match r {
            Ok(table) => component_entries(doc@, parts.model(), nets.model()) == Ok::<
                _,
                BuildFailure,
            >(table.history()),
            Err(e) => component_entries(doc@, parts.model(), nets.model()) == Err::<
                Seq<(Seq<char>, Correlation)>,
                _,
            >(e@),
        },
{
    let records = match section(doc, "components") {
        Some(records) => records,
        None => {
            return Err(BuildError::Structure(Section::Components));
        },
    };
    let ghost f = component_reader(parts.model(), nets.model());
    let mut table: Table<String, AssociatedComponent> = Table::new();
    let mut i: usize = 0;
    while i < records.len()
        invariant
            i <= records.len(),
            doc@.child("components"@).elements() == Some(trees(records@)),
            f == component_reader(parts.model(), nets.model()),
            try_each(trees(records@).take(i as int), f) == Ok::<_, BuildFailure>(table.history()),
        decreases records.len() - i,
    {
        let record = records[i];
        proof {
            assert(trees(records@)[i as int] == record@);
            lemma_try_each_step(trees(records@), f, i as int);
        }
        match AssociatedComponent::correlate(Component::new(record), parts, nets) {
            Ok(component) => {
                let reference = record.field_text("ref");
                table.insert(to_upper(reference.as_str()), component);
            },
            Err(e) => {
                proof {
                    assert(f(record@) == Err::<(Seq<char>, Correlation), _>(e@));
                    lemma_try_each_fails(trees(records@), f, i + 1);
                }
                return Err(e);
            },
        }
        i = i + 1;
    }
    proof {
        assert(trees(records@).take(i as int) =~= trees(records@));
    }
    Ok(table)
}

/// A netlist: the sheet's metadata and the components, each with its pins
/// and their nets, by their reference designators in upper case.
#[derive(Debug)]
pub struct Netlist {
    pub sheet: Sheet,
    pub components: Table<String, AssociatedComponent>,
}

impl DeepView for Netlist {
    type V = NetlistModel;

    open spec fn deep_view(&self) -> NetlistModel {
        NetlistModel { sheet: self.sheet@, components: self.components.model() }
    }
}

impl View for Netlist {
    type V = NetlistModel;

    open spec fn view(&self) -> NetlistModel {
        self.deep_view()
    }
}

impl Netlist {
    /// Builds the netlist that a document describes.
    pub fn new(sexpr: &Sexp) -> (r: Result<Netlist, BuildError>)
        ensures
            outcome(r) == netlist_of(sexpr@),
    {
        let sheet = Sheet::new(sexpr);
        let nets = match net_table(sexpr) {
            Ok(nets) => nets,
            Err(e) => {
                return Err(e);
            },
        };
        let parts = match part_table(sexpr) {
            Ok(parts) => parts,
            Err(e) => {
                return Err(e);
            },
        };
        let components = match component_table(sexpr, &parts, &nets) {
            Ok(components) => components,
            Err(e) => {
                return Err(e);
            },
        };
        Ok(Netlist { sheet, components })
    }

    /// The component with the given reference designator, whatever the case
    /// it is written in.
    pub fn find(&self, reference: &str) -> (r: Option<&AssociatedComponent>)
        ensures
            match r {
                Some(component) => self@.find(reference@) == Some(component@),
                None => self@.find(reference@) is None,
            },
    {
        let key = to_upper(reference);
        self.components.get(&key)
    }
}

} // verus!
