//! What holds of every netlist that is built from a document.
//!
//! The build is stated in `netlist` as one function of the document. The
//! facts here are read off that statement: which keys a library part stands
//! under, what a component's pins are, when the build fails and with what,
//! and how a component is found.

use vstd::prelude::*;

use crate::netlist::associate;
use crate::netlist::component_entries;
use crate::netlist::component_reader;
use crate::netlist::connect;
use crate::netlist::library_entries;
use crate::netlist::net_entries;
use crate::netlist::netlist_of;
use crate::netlist::part_entries;
use crate::netlist::part_reader;
use crate::netlist::pin_reader;
use crate::netlist::BuildFailure;
use crate::netlist::ComponentInstance;
use crate::netlist::Correlation;
use crate::netlist::LibraryPartKey;
use crate::netlist::NetClass;
use crate::netlist::NetlistModel;
use crate::netlist::PinDefinition;
use crate::netlist::PinNode;
use crate::netlist::PinType;
use crate::sexpr::Tree;
use crate::steps::lemma_try_concat_all;
use crate::steps::lemma_try_concat_first_failure;
use crate::steps::lemma_try_concat_source;
use crate::steps::lemma_try_concat_split;
use crate::steps::lemma_try_each_all;
use crate::steps::lemma_try_each_first_failure;
use crate::steps::lemma_try_each_ok;
use crate::steps::try_concat;
use crate::steps::try_each;
use crate::table::last_wins;
use crate::table::lemma_last_wins_concat;
use crate::table::lemma_last_wins_contains;
use crate::table::lemma_last_wins_present;
use crate::table::lemma_last_wins_source;
use crate::text::uppercase_of;

verus! {

/// The library-part records of a document.
pub open spec fn part_records(doc: Tree) -> Seq<Tree> {
    doc.child("libparts"@).items()
}

/// The component records of a document.
pub open spec fn component_records(doc: Tree) -> Seq<Tree> {
    doc.child("components"@).items()
}

/// The pin records of a library-part record.
pub open spec fn pin_records(record: Tree) -> Seq<Tree> {
    record.child("pins"@).items()
}

/// Whether a library-part record has a pin list.
pub open spec fn declares_pins(record: Tree) -> bool {
    record.child("pins"@).is_list()
}

/// Whether a library-part record puts its pins under `key`.
pub open spec fn publishes(record: Tree, key: LibraryPartKey) -> bool {
    declares_pins(record) && LibraryPartKey::all(record).contains(key)
}

/// The word that a pin record gives as the electrical type of its pin.
pub open spec fn type_word(record: Tree) -> Seq<char> {
    record.field_text("type"@)
}

/// The place of a pin in the net table.
pub open spec fn node_of(instance: ComponentInstance, pin: PinDefinition) -> PinNode {
    PinNode { reference: instance.reference, pin: pin.num }
}

/// The key under which a component record stands in the netlist.
pub open spec fn component_key(record: Tree) -> Seq<char> {
    uppercase_of(record.field_text("ref"@))
}

/// A library part with a pin list and N aliases stands in the library part
/// table under N + 1 keys, its aliases and its own name, and under each of
/// them with the pin list that it declares. This holds of each key that no
/// later part of the document takes over.
pub proof fn lemma_part_under_each_key(doc: Tree, at: int, k: int)
    requires
        library_entries(doc) is Ok,
        0 <= at < part_records(doc).len(),
        declares_pins(part_records(doc)[at]),
        0 <= k < LibraryPartKey::all(part_records(doc)[at]).len(),
        forall|j: int|
            at < j < part_records(doc).len() ==> !publishes(
                #[trigger] part_records(doc)[j],
                LibraryPartKey::all(part_records(doc)[at])[k],
            ),
    ensures
        LibraryPartKey::all(part_records(doc)[at]).len() == LibraryPartKey::aliases(
            part_records(doc)[at],
        ).len() + 1,
        try_each(pin_records(part_records(doc)[at]), pin_reader()) is Ok,
        last_wins(library_entries(doc)->Ok_0).contains_key(
            LibraryPartKey::all(part_records(doc)[at])[k],
        ),
        last_wins(library_entries(doc)->Ok_0)[LibraryPartKey::all(part_records(doc)[at])[k]]
            == try_each(pin_records(part_records(doc)[at]), pin_reader())->Ok_0,
{
    let records = part_records(doc);
    let f = part_reader();
    let record = records[at];
    let key = LibraryPartKey::all(record)[k];
    let all = try_concat(records, f)->Ok_0;
    assert(doc.child("libparts"@).elements() == Some(records));
    lemma_try_concat_all(records, f);
    assert(f(records[at]) is Ok);
    let pins = try_each(pin_records(record), pin_reader())->Ok_0;
    let chunk = part_entries(record)->Ok_0;
    assert(chunk == LibraryPartKey::all(record).map_values(|key: LibraryPartKey| (key, pins)));

    lemma_try_concat_split(records, f, at);
    let before = try_concat(records.take(at), f)->Ok_0;
    let rest = records.skip(at);
    lemma_try_concat_split(rest, f, 1);
    let later = try_concat(rest.skip(1), f)->Ok_0;
    assert(rest.take(1).drop_last() =~= Seq::empty());
    assert(rest.take(1).last() == record);
    assert(try_concat(rest.take(1).drop_last(), f) == Ok::<
        Seq<(LibraryPartKey, Seq<PinDefinition>)>,
        BuildFailure,
    >(Seq::empty()));
    assert(Seq::<(LibraryPartKey, Seq<PinDefinition>)>::empty() + chunk =~= chunk);
    assert(try_concat(rest.take(1), f)->Ok_0 =~= chunk);
    assert(all == before + (chunk + later));

    // No later record has an entry under the key.
    if last_wins(later).contains_key(key) {
        let i = lemma_last_wins_source(later, key);
        let from = lemma_try_concat_source(rest.skip(1), f, i);
        let other = rest.skip(1)[from.0];
        assert(other == records[at + 1 + from.0]);
        let theirs = part_entries(other)->Ok_0;
        assert(theirs.len() > 0);
        assert(declares_pins(other));
        assert(theirs[from.1].0 == LibraryPartKey::all(other)[from.1]);
        assert(publishes(other, key));
        assert(false);
    }
    // The record's own entries hold the key, with the record's pins.
    assert(chunk[k] == (key, pins));
    lemma_last_wins_contains(chunk, k);
    let own = lemma_last_wins_source(chunk, key);
    assert(chunk[own].1 == pins);

    lemma_last_wins_concat(chunk, later);
    lemma_last_wins_concat(before, chunk + later);
}

/// A component whose library part is in the table has the pins of that
/// part, as many and in the same order, each with the net that the net
/// table holds for it.
pub proof fn lemma_pins_follow_part(
    instance: ComponentInstance,
    parts: Map<LibraryPartKey, Seq<PinDefinition>>,
    nets: Map<PinNode, NetClass>,
)
    requires
        parts.contains_key(instance.libpart),
        associate(instance, parts, nets) is Ok,
    ensures
        associate(instance, parts, nets)->Ok_0.component == instance,
        associate(instance, parts, nets)->Ok_0.pins.len() == parts[instance.libpart].len(),
        forall|i: int|
            #![trigger parts[instance.libpart][i]]
            0 <= i < parts[instance.libpart].len() ==> {
                &&& nets.contains_key(node_of(instance, parts[instance.libpart][i]))
                &&& associate(instance, parts, nets)->Ok_0.pins[i] == (
                    parts[instance.libpart][i],
                    nets[node_of(instance, parts[instance.libpart][i])],
                )
            },
{
    lemma_try_each_ok(parts[instance.libpart], connect(instance.reference, nets));
}

/// A component whose library part is not in the table has no pins, and
/// that is no failure.
pub proof fn lemma_unknown_part_has_no_pins(
    instance: ComponentInstance,
    parts: Map<LibraryPartKey, Seq<PinDefinition>>,
    nets: Map<PinNode, NetClass>,
)
    requires
        !parts.contains_key(instance.libpart),
    ensures
        associate(instance, parts, nets) == Ok::<_, BuildFailure>(
            Correlation { component: instance, pins: Seq::empty() },
        ),
{
}

/// A component with a pin that the net table does not hold is a failure
/// that names that pin: the first such pin in the order of the library
/// part.
pub proof fn lemma_dangling_pin_fails(
    instance: ComponentInstance,
    parts: Map<LibraryPartKey, Seq<PinDefinition>>,
    nets: Map<PinNode, NetClass>,
    p: int,
)
    requires
        parts.contains_key(instance.libpart),
        0 <= p < parts[instance.libpart].len(),
        !nets.contains_key(node_of(instance, parts[instance.libpart][p])),
        forall|q: int|
            0 <= q < p ==> nets.contains_key(
                node_of(instance, #[trigger] parts[instance.libpart][q]),
            ),
    ensures
        associate(instance, parts, nets) == Err::<Correlation, _>(
            BuildFailure::DanglingPin(node_of(instance, parts[instance.libpart][p])),
        ),
{
    lemma_try_each_first_failure(
        parts[instance.libpart],
        connect(instance.reference, nets),
        p,
    );
}

/// A component with a pin that the net table does not hold is a failure,
/// whichever pin it is.
pub proof fn lemma_any_dangling_pin_fails(
    instance: ComponentInstance,
    parts: Map<LibraryPartKey, Seq<PinDefinition>>,
    nets: Map<PinNode, NetClass>,
    p: int,
)
    requires
        parts.contains_key(instance.libpart),
        0 <= p < parts[instance.libpart].len(),
        !nets.contains_key(node_of(instance, parts[instance.libpart][p])),
    ensures
        associate(instance, parts, nets) is Err,
{
    lemma_try_each_all(parts[instance.libpart], connect(instance.reference, nets));
}

/// Where the nets and the library parts of a document are read, and a pin
/// of a component has no net, the build fails and names that pin: the
/// first such pin of the first such component.
pub proof fn lemma_dangling_pin_stops_build(doc: Tree, c: int, p: int)
    requires
        net_entries(doc) is Ok,
        library_entries(doc) is Ok,
        doc.child("components"@).is_list(),
        0 <= c < component_records(doc).len(),
        forall|j: int|
            0 <= j < c ==> associate(
                ComponentInstance::read(#[trigger] component_records(doc)[j]),
                last_wins(library_entries(doc)->Ok_0),
                last_wins(net_entries(doc)->Ok_0),
            ) is Ok,
        last_wins(library_entries(doc)->Ok_0).contains_key(
            ComponentInstance::read(component_records(doc)[c]).libpart,
        ),
        0 <= p < last_wins(library_entries(doc)->Ok_0)[ComponentInstance::read(
            component_records(doc)[c],
        ).libpart].len(),
        !last_wins(net_entries(doc)->Ok_0).contains_key(
            node_of(
                ComponentInstance::read(component_records(doc)[c]),
                last_wins(library_entries(doc)->Ok_0)[ComponentInstance::read(
                    component_records(doc)[c],
                ).libpart][p],
            ),
        ),
        forall|q: int|
            0 <= q < p ==> last_wins(net_entries(doc)->Ok_0).contains_key(
                node_of(
                    ComponentInstance::read(component_records(doc)[c]),
                    #[trigger] last_wins(library_entries(doc)->Ok_0)[ComponentInstance::read(
                        component_records(doc)[c],
                    ).libpart][q],
                ),
            ),
    ensures
        netlist_of(doc) == Err::<NetlistModel, _>(
            BuildFailure::DanglingPin(
                node_of(
                    ComponentInstance::read(component_records(doc)[c]),
                    last_wins(library_entries(doc)->Ok_0)[ComponentInstance::read(
                        component_records(doc)[c],
                    ).libpart][p],
                ),
            ),
        ),
{
    let parts = last_wins(library_entries(doc)->Ok_0);
    let nets = last_wins(net_entries(doc)->Ok_0);
    let records = component_records(doc);
    let f = component_reader(parts, nets);
    lemma_dangling_pin_fails(ComponentInstance::read(records[c]), parts, nets, p);
    assert forall|j: int| 0 <= j < c implies f(#[trigger] records[j]) is Ok by {
        assert(associate(ComponentInstance::read(records[j]), parts, nets) is Ok);
    }
    lemma_try_each_first_failure(records, f, c);
    assert(doc.child("components"@).elements() == Some(records));
}

/// A pin of a library part with a word for its electrical type that is
/// not in the vocabulary makes the build fail: no type is made up for it.
pub proof fn lemma_unknown_pin_type_fails(doc: Tree, at: int, p: int)
    requires
        doc.child("libparts"@).is_list(),
        0 <= at < part_records(doc).len(),
        declares_pins(part_records(doc)[at]),
        0 <= p < pin_records(part_records(doc)[at]).len(),
        PinType::of_text(type_word(pin_records(part_records(doc)[at])[p])) is None,
    ensures
        netlist_of(doc) is Err,
{
    let records = part_records(doc);
    assert(doc.child("libparts"@).elements() == Some(records));
    lemma_try_each_all(pin_records(records[at]), pin_reader());
    assert(pin_reader()(pin_records(records[at])[p]) is Err);
    assert(part_reader()(records[at]) is Err);
    lemma_try_concat_all(records, part_reader());
}

/// Where the nets of a document are read, the first pin of a library part
/// with a word for its electrical type that is not in the vocabulary makes
/// the build fail with that word.
pub proof fn lemma_unknown_pin_type_stops_build(doc: Tree, at: int, p: int)
    requires
        net_entries(doc) is Ok,
        doc.child("libparts"@).is_list(),
        0 <= at < part_records(doc).len(),
        forall|j: int| 0 <= j < at ==> part_entries(#[trigger] part_records(doc)[j]) is Ok,
        declares_pins(part_records(doc)[at]),
        0 <= p < pin_records(part_records(doc)[at]).len(),
        PinType::of_text(type_word(pin_records(part_records(doc)[at])[p])) is None,
        forall|q: int|
            0 <= q < p ==> PinType::of_text(
                type_word(#[trigger] pin_records(part_records(doc)[at])[q]),
            ) is Some,
    ensures
        netlist_of(doc) == Err::<NetlistModel, _>(
            BuildFailure::UnknownPinType(type_word(pin_records(part_records(doc)[at])[p])),
        ),
{
    let records = part_records(doc);
    let pins = pin_records(records[at]);
    assert(doc.child("libparts"@).elements() == Some(records));
    assert forall|q: int| 0 <= q < p implies pin_reader()(#[trigger] pins[q]) is Ok by {
        assert(PinType::of_text(type_word(pins[q])) is Some);
    }
    lemma_try_each_first_failure(pins, pin_reader(), p);
    assert forall|j: int| 0 <= j < at implies part_reader()(#[trigger] records[j]) is Ok by {
        assert(part_entries(records[j]) is Ok);
    }
    lemma_try_concat_first_failure(records, part_reader(), at);
}

/// Two reference designators that differ in case alone find the same
/// component, or both none.
pub proof fn lemma_find_ignores_case(netlist: NetlistModel, a: Seq<char>, b: Seq<char>)
    requires
        uppercase_of(a) == uppercase_of(b),
    ensures
        netlist.find(a) == netlist.find(b),
{
}

/// A component of the document is found under its reference designator in
/// any case, with the pins that the join gives it; unless a later component
/// of the document has the same reference designator but for its case.
pub proof fn lemma_component_is_found(doc: Tree, at: int, reference: Seq<char>)
    requires
        netlist_of(doc) is Ok,
        0 <= at < component_records(doc).len(),
        uppercase_of(reference) == component_key(component_records(doc)[at]),
        forall|j: int|
            at < j < component_records(doc).len() ==> component_key(
                #[trigger] component_records(doc)[j],
            ) != component_key(component_records(doc)[at]),
    ensures
        netlist_of(doc)->Ok_0.find(reference) == Some(
            associate(
                ComponentInstance::read(component_records(doc)[at]),
                last_wins(library_entries(doc)->Ok_0),
                last_wins(net_entries(doc)->Ok_0),
            )->Ok_0,
        ),
        associate(
            ComponentInstance::read(component_records(doc)[at]),
            last_wins(library_entries(doc)->Ok_0),
            last_wins(net_entries(doc)->Ok_0),
        ) is Ok,
{
    let parts = last_wins(library_entries(doc)->Ok_0);
    let nets = last_wins(net_entries(doc)->Ok_0);
    let records = component_records(doc);
    let f = component_reader(parts, nets);
    assert(doc.child("components"@).elements() == Some(records));
    let entries = component_entries(doc, parts, nets)->Ok_0;
    lemma_try_each_ok(records, f);
    assert(f(records[at]) == Ok::<_, BuildFailure>(entries[at]));
    assert forall|j: int| at < j < entries.len() implies (#[trigger] entries[j]).0
        != entries[at].0 by {
        assert(f(records[j]) == Ok::<_, BuildFailure>(entries[j]));
        assert(component_key(records[j]) != component_key(records[at]));
    }
    lemma_last_wins_present(entries, at);
}

} // verus!
