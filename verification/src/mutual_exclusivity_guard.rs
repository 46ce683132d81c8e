//! Guard against two components that must never sit on the same entity.
//!
//! The engine finds the entities that carry both components; this module
//! turns what it found into the message with which the program is halted.

use bevy_ecs::entity::Entity;
use vstd::prelude::*;
use vstd::string::StringExecFns;

verus! {

/// An entity that was found carrying both of two mutually exclusive
/// components.
#[derive(Debug)]
pub struct ConflictingEntity {
    /// The entity's identifier, as `Entity::to_bits` gives it.
    pub entity: u64,
    /// The entity's name, where it has one.
    pub name: Option<String>,
}

/// A [`ConflictingEntity`] with its name as text.
pub struct ConflictingEntityView {
    /// The entity's identifier, as `Entity::to_bits` gives it.
    pub entity: u64,
    /// The text of the entity's name, where it has one.
    pub name: Option<Seq<char>>,
}

impl View for ConflictingEntity {
    type V = ConflictingEntityView;

    open spec fn view(&self) -> ConflictingEntityView {
        ConflictingEntityView {
            entity: self.entity,
            name: match self.name {
                Some(name) => Some(name@),
                None => None,
            },
        }
    }
}

/// The views of a run of conflicting entities, in the same order.
pub open spec fn views(found: Seq<ConflictingEntity>) -> Seq<ConflictingEntityView> {
    Seq::new(found.len(), |i: int| found[i]@)
}

/// The character for one decimal digit.
pub open spec fn digit_char(digit: nat) -> char {
    if digit == 0 {
        '0'
    } else if digit == 1 {
        '1'
    } else if digit == 2 {
        '2'
    } else if digit == 3 {
        '3'
    } else if digit == 4 {
        '4'
    } else if digit == 5 {
        '5'
    } else if digit == 6 {
        '6'
    } else if digit == 7 {
        '7'
    } else if digit == 8 {
        '8'
    } else {
        '9'
    }
}

/// A number written in decimal, without sign or leading zeros.
pub open spec fn decimal_text(number: nat) -> Seq<char>
    decreases number,
{
    if number < 10 {
        seq![digit_char(number)]
    } else {
        decimal_text(number / 10).push(digit_char(number % 10))
    }
}

/// How the engine writes an entity identifier: the index held in the low 32
/// bits, the letter `v`, and the generation held in the high 32 bits, both in
/// decimal.
pub open spec fn entity_text(entity: u64) -> Seq<char> {
    decimal_text((entity % 0x1_0000_0000) as nat) + seq!['v'] + decimal_text(
        (entity / 0x1_0000_0000) as nat,
    )
}

/// The line that reports one conflicting entity, for the two component type
/// names `first` and `second`.
pub open spec fn violation_line(
    found: ConflictingEntityView,
    first: Seq<char>,
    second: Seq<char>,
) -> Seq<char> {
    let subject = match found.name {
        Some(name) => "Entity "@ + entity_text(found.entity) + " with name "@ + name,
        None => "Entity "@ + entity_text(found.entity),
    };
    subject + " has two mutually exclusive components, "@ + first + " and "@ + second + ".\n"@
}

/// The whole report: one line for each conflicting entity, in the order in
/// which they were found.
pub open spec fn violation_report(
    found: Seq<ConflictingEntityView>,
    first: Seq<char>,
    second: Seq<char>,
) -> Seq<char>
    decreases found.len(),
{
    if found.len() == 0 {
        Seq::empty()
    } else {
        violation_report(found.drop_last(), first, second) + violation_line(
            found.last(),
            first,
            second,
        )
    }
}

/// Writes an entity identifier the way the engine does, by handing the bits
/// to `bevy_ecs::entity::Entity::from_bits` and formatting the entity with its
/// `Debug` impl.
///
/// The contract is not proved. It restates what the engine's source shows:
/// `from_bits` takes the low 32 bits as the index and the high 32 bits as the
/// generation, and `Debug` prints the index, the letter `v` and the
/// generation, each as a plain decimal number.
#[verifier::external_body]
fn entity_label(entity: u64) -> (label: String)
    ensures
        label@ == entity_text(entity),
{
    format!("{:?}", Entity::from_bits(entity))
}

/// Appends the line for one conflicting entity to `report`.
fn push_violation_line(report: &mut String, found: &ConflictingEntity, first: &str, second: &str)
    ensures
        final(report)@ == old(report)@ + violation_line(found@, first@, second@),
{
    let label = entity_label(found.entity);
    report.append("Entity ");
    report.append(label.as_str());
    match &found.name {
        Some(name) => {
            report.append(" with name ");
            report.append(name.as_str());
        },
        None => {},
    }
    report.append(" has two mutually exclusive components, ");
    report.append(first);
    report.append(" and ");
    report.append(second);
    report.append(".\n");
}

/// Decides whether the program must halt because entities carry both of two
/// mutually exclusive components, and with which message.
///
/// `found` holds the entities that carry both components, `first` and `second`
/// the type names of the two. With no such entity there is nothing to report.
/// Otherwise the message has one line for each entity, in the order given.
pub fn mutually_exclusive_component_panic(
    found: &Vec<ConflictingEntity>,
    first: &str,
    second: &str,
) -> (message: Option<String>)
    ensures
        message is None <==> found@.len() == 0,
        message matches Some(text) ==> text@ == violation_report(views(found@), first@, second@),
{
    if found.len() == 0 {
        return None;
    }
    let mut error = String::new();
    let mut i: usize = 0;
    while i < found.len()
        invariant
            i <= found@.len(),
            error@ == violation_report(views(found@).take(i as int), first@, second@),
        decreases found@.len() - i,
    {
        push_violation_line(&mut error, &found[i], first, second);
        proof {
            let before = views(found@).take(i as int);
            let after = views(found@).take(i + 1);
            assert(after.drop_last() =~= before);
        }
        i = i + 1;
    }
    proof {
        assert(views(found@).take(i as int) =~= views(found@));
    }
    Some(error)
}

} // verus!
