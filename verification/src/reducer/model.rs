//! The syntax the chip reducer reads, as plain values, and what it does with
//! it, as spec functions.
//!
//! A module body is a list of syntax elements. Each element holds, in the
//! order they are read, the attributes found where nothing can be gated and
//! the nested lists of elements (struct fields, statements, module items).
//! Every element and attribute carries an `at` tag that the caller uses to
//! find it again in its own syntax tree.
//!
//! A list is reduced in two passes, as the errors are raised: first every
//! member is selected by its own attributes, then each surviving member is
//! read in turn, with everything nested in it.

use vstd::prelude::*;

use crate::catalog::chips::{chip_feature, chip_for_feature};
use crate::catalog::items::{
    board_has_peripheral, board_has_pin, peripheral_cfg_name, pin_cfg_name, BoardView, Peripheral,
    Pin,
};
use crate::catalog::systems::{system_chip, system_for_feature};
use crate::firmware::selection::enabled;

verus! {

/// A `cfg` predicate.
pub struct CfgPredicate {
    pub at: u64,
    pub form: PredicateForm,
}

/// The shapes a `cfg` predicate can take.
pub enum PredicateForm {
    /// `feature = "name"`.
    Feature(String),
    /// `board_pin = "name"`.
    BoardPin(String),
    /// `board_peripheral = "name"`.
    BoardPeripheral(String),
    /// `all(..)`.
    All(Vec<CfgPredicate>),
    /// `any(..)`.
    Any(Vec<CfgPredicate>),
    /// `not(..)`, with however many operands were written.
    Not(Vec<CfgPredicate>),
    /// Arguments that do not parse as predicates.
    Malformed,
    /// Any other predicate: another key, a non-string value, another list.
    Unsupported,
}

/// An attribute, as far as the reducer tells attributes apart.
pub enum Attr {
    /// `#[cfg(..)]`.
    Cfg { at: u64, predicate: CfgPredicate },
    /// `#[cfg_attr(..)]`.
    CfgAttr { at: u64 },
    /// Any other attribute.
    Other { at: u64 },
}

/// Where an element stands, which decides what its `cfg` attributes do.
#[derive(Clone, Copy, Debug, PartialEq, Eq, Structural)]
pub enum Position {
    /// Selected by its own `cfg` attributes (items, struct fields, fields of
    /// struct expressions, `let` and macro statements); after selection its
    /// remaining attributes are inspected.
    Gated,
    /// A module item: selected by its own `cfg` attributes like a gated
    /// element, but its remaining attributes are not inspected.
    Module,
    /// A member of a list that `cfg` cannot gate (an expression statement):
    /// always kept, its own attributes inspected.
    Fixed,
}

/// What an element holds besides its own attributes, in reading order.
pub enum Part {
    /// An attribute where nothing can be gated (on an expression, a
    /// parameter, a variant, ...).
    Inspect(Attr),
    /// A nested list. Its members are selected first; then `between` is
    /// read (what stands between the selection and the members, such as a
    /// struct expression's own attributes and path); then the surviving
    /// members.
    Nested { between: Vec<Part>, members: Vec<Node> },
}

/// One syntax element.
pub struct Node {
    pub at: u64,
    pub position: Position,
    pub attrs: Vec<Attr>,
    pub parts: Vec<Part>,
}

/// An element that survives reduction, with the attributes it keeps.
pub struct KeptNode {
    pub at: u64,
    pub attrs: Vec<u64>,
}

/// A kept element, seen as plain values.
pub struct KeptView {
    pub at: u64,
    pub attrs: Seq<u64>,
}

impl View for KeptNode {
    type V = KeptView;

    open spec fn view(&self) -> KeptView {
        KeptView { at: self.at, attrs: self.attrs@ }
    }
}

/// The module the reducer is applied to; `content` is `None` for a module
/// declared without a body.
pub struct AppModule {
    pub at: u64,
    pub content: Option<Vec<Node>>,
}

/// Why reduction was refused.
#[derive(Clone, Copy, Debug, PartialEq, Eq, Structural)]
pub enum ReduceErrorKind {
    /// The chip argument is not a registered chip.
    UnknownChip,
    /// The system argument is not registered, or is registered for another chip.
    SystemMismatch,
    /// A software argument is not a registered software feature.
    UnknownSoftware,
    /// The module has no inline body.
    NotInline,
    /// A predicate other than a registered feature or `all`/`any`/`not`.
    UnsupportedPredicate,
    /// `not(..)` without exactly one operand.
    NotArity,
    /// Predicate arguments that do not parse.
    MalformedPredicate,
    /// `cfg_attr` on a gated element.
    CfgAttrUnsupported,
    /// `cfg` or `cfg_attr` where no element can be gated.
    CfgPosition,
}

/// One refusal, with the tag of the element, attribute or predicate it
/// concerns.
#[derive(Clone, Copy, Debug, PartialEq, Eq, Structural)]
pub struct ReduceError {
    pub kind: ReduceErrorKind,
    pub at: u64,
}

/// What a reduction selects for: the chip, the optional system, the board
/// of that system (if it has one), and the software features switched on.
pub struct Selection {
    pub chip: Seq<char>,
    pub system: Option<Seq<char>>,
    pub board: Option<BoardView>,
    pub software: Seq<String>,
}

/// The software features the reducer knows.
pub open spec fn software_feature(name: Seq<char>) -> bool {
    name == "sw-report"@
}

/// The board of the system with this feature, if the system is registered
/// and has a board.
pub open spec fn selected_board(system: Option<Seq<char>>) -> Option<BoardView> {
    match system {
        Some(name) => match system_for_feature(name) {
            Some(s) => s.board,
            None => None,
        },
        None => None,
    }
}

/// The selection for a chip, an optional system and a software list.
pub open spec fn selection_for(chip: Seq<char>, system: Option<Seq<char>>, software: Seq<String>) -> Selection {
    Selection { chip, system, board: selected_board(system), software }
}

/// What a `feature = "name"` predicate evaluates to: for a registered chip,
/// whether it is the selected chip; for a registered system, whether it is
/// the selected system; for a registered software feature, whether it is
/// switched on; `None` for an unregistered name.
pub open spec fn feature_value(sel: Selection, name: Seq<char>) -> Option<bool> {
    if chip_for_feature(name) is Some {
        Some(name == sel.chip)
    } else if system_for_feature(name) is Some {
        Some(sel.system == Some(name))
    } else if software_feature(name) {
        Some(enabled(sel.software, name))
    } else {
        None
    }
}

/// The pin whose cfg name is `name`, if any.
pub open spec fn pin_for_cfg_name(name: Seq<char>) -> Option<Pin> {
    if name == pin_cfg_name(Pin::Led1) {
        Some(Pin::Led1)
    } else if name == pin_cfg_name(Pin::Led2) {
        Some(Pin::Led2)
    } else if name == pin_cfg_name(Pin::Led3) {
        Some(Pin::Led3)
    } else if name == pin_cfg_name(Pin::Serial1) {
        Some(Pin::Serial1)
    } else if name == pin_cfg_name(Pin::Serial2) {
        Some(Pin::Serial2)
    } else if name == pin_cfg_name(Pin::Serial3) {
        Some(Pin::Serial3)
    } else if name == pin_cfg_name(Pin::Pwm1) {
        Some(Pin::Pwm1)
    } else if name == pin_cfg_name(Pin::Pwm2) {
        Some(Pin::Pwm2)
    } else {
        None
    }
}

/// The peripheral whose cfg name is `name`, if any.
pub open spec fn peripheral_for_cfg_name(name: Seq<char>) -> Option<Peripheral> {
    if name == peripheral_cfg_name(Peripheral::Usart1) {
        Some(Peripheral::Usart1)
    } else if name == peripheral_cfg_name(Peripheral::Usart2) {
        Some(Peripheral::Usart2)
    } else if name == peripheral_cfg_name(Peripheral::Usart6) {
        Some(Peripheral::Usart6)
    } else if name == peripheral_cfg_name(Peripheral::Tim3) {
        Some(Peripheral::Tim3)
    } else if name == peripheral_cfg_name(Peripheral::Tim4) {
        Some(Peripheral::Tim4)
    } else if name == peripheral_cfg_name(Peripheral::Tim5) {
        Some(Peripheral::Tim5)
    } else {
        None
    }
}

/// What `board_pin = "name"` evaluates to: for a registered pin name,
/// whether the selected board declares that pin (false without a board);
/// `None` for an unregistered name.
pub open spec fn board_pin_value(sel: Selection, name: Seq<char>) -> Option<bool> {
    if pin_for_cfg_name(name) is Some {
        Some(sel.board matches Some(b) && board_has_pin(b, name))
    } else {
        None
    }
}

/// What `board_peripheral = "name"` evaluates to: for a registered
/// peripheral name, whether the selected board declares that peripheral
/// (false without a board); `None` for an unregistered name.
pub open spec fn board_peripheral_value(sel: Selection, name: Seq<char>) -> Option<bool> {
    if peripheral_for_cfg_name(name) is Some {
        Some(sel.board matches Some(b) && board_has_peripheral(b, name))
    } else {
        None
    }
}

/// Whether every value is true.
pub open spec fn all_true(values: Seq<bool>) -> bool {
    forall|i: int| 0 <= i < values.len() ==> values[i]
}

/// Whether some value is true.
pub open spec fn any_true(values: Seq<bool>) -> bool {
    exists|i: int| 0 <= i < values.len() && values[i]
}

/// What a predicate evaluates to. Every operand of `all`, `any` and `not`
/// is evaluated, including those the result would not depend on; the first
/// operand that fails decides the error.
pub open spec fn eval_predicate(sel: Selection, p: CfgPredicate) -> Result<bool, ReduceError>
    decreases p,
{
    match p.form {
        PredicateForm::Feature(name) => match feature_value(sel, name@) {
            Some(b) => Ok(b),
            None => Err(ReduceError { kind: ReduceErrorKind::UnsupportedPredicate, at: p.at }),
        },
        PredicateForm::BoardPin(name) => match board_pin_value(sel, name@) {
            Some(b) => Ok(b),
            None => Err(ReduceError { kind: ReduceErrorKind::UnsupportedPredicate, at: p.at }),
        },
        PredicateForm::BoardPeripheral(name) => match board_peripheral_value(sel, name@) {
            Some(b) => Ok(b),
            None => Err(ReduceError { kind: ReduceErrorKind::UnsupportedPredicate, at: p.at }),
        },
        PredicateForm::All(args) => match eval_predicates(sel, args@) {
            Ok(values) => Ok(all_true(values)),
            Err(e) => Err(e),
        },
        PredicateForm::Any(args) => match eval_predicates(sel, args@) {
            Ok(values) => Ok(any_true(values)),
            Err(e) => Err(e),
        },
        PredicateForm::Not(args) => match eval_predicates(sel, args@) {
            Ok(values) => if values.len() == 1 {
                Ok(!values[0])
            } else {
                Err(ReduceError { kind: ReduceErrorKind::NotArity, at: p.at })
            },
            Err(e) => Err(e),
        },
        PredicateForm::Malformed => Err(
            ReduceError { kind: ReduceErrorKind::MalformedPredicate, at: p.at },
        ),
        PredicateForm::Unsupported => Err(
            ReduceError { kind: ReduceErrorKind::UnsupportedPredicate, at: p.at },
        ),
    }
}

/// The values of a list of predicates, or the error of the first that fails.
pub open spec fn eval_predicates(sel: Selection, ps: Seq<CfgPredicate>) -> Result<
    Seq<bool>,
    ReduceError,
>
    decreases ps,
{
    if ps.len() == 0 {
        Ok(Seq::empty())
    } else {
        match eval_predicates(sel, ps.drop_last()) {
            Ok(values) => match eval_predicate(sel, ps.last()) {
                Ok(b) => Ok(values.push(b)),
                Err(e) => Err(e),
            },
            Err(e) => Err(e),
        }
    }
}

/// The tag of an attribute.
pub open spec fn attr_at(a: Attr) -> u64 {
    match a {
        Attr::Cfg { at, .. } => at,
        Attr::CfgAttr { at } => at,
        Attr::Other { at } => at,
    }
}

/// What selecting an element by its attributes decides: whether every `cfg`
/// that evaluates holds, which attributes stay (all but the `cfg`s), and the
/// errors raised, in attribute order. A `cfg` that fails to evaluate leaves
/// the decision as it was; a `cfg_attr` stays and raises an error.
pub struct AttrSelection {
    pub enabled: bool,
    pub kept: Seq<u64>,
    pub errors: Seq<ReduceError>,
}

pub open spec fn select_attrs(sel: Selection, attrs: Seq<Attr>) -> AttrSelection
    decreases attrs.len(),
{
    if attrs.len() == 0 {
        AttrSelection { enabled: true, kept: Seq::empty(), errors: Seq::empty() }
    } else {
        let prev = select_attrs(sel, attrs.drop_last());
        match attrs.last() {
            Attr::Cfg { at, predicate } => match eval_predicate(sel, predicate) {
                Ok(v) => AttrSelection { enabled: prev.enabled && v, ..prev },
                Err(e) => AttrSelection { errors: prev.errors.push(e), ..prev },
            },
            Attr::CfgAttr { at } => AttrSelection {
                enabled: prev.enabled,
                kept: prev.kept.push(at),
                errors: prev.errors.push(
                    ReduceError { kind: ReduceErrorKind::CfgAttrUnsupported, at: at },
                ),
            },
            Attr::Other { at } => AttrSelection { kept: prev.kept.push(at), ..prev },
        }
    }
}

/// The errors raised by inspecting attributes that stand where they cannot
/// gate anything: one for each `cfg_attr`, and one for each `cfg` unless the
/// `cfg`s were already removed by selection.
pub open spec fn inspect_errors(attrs: Seq<Attr>, cfg_removed: bool) -> Seq<ReduceError>
    decreases attrs.len(),
{
    if attrs.len() == 0 {
        Seq::empty()
    } else {
        let prev = inspect_errors(attrs.drop_last(), cfg_removed);
        match attrs.last() {
            Attr::Cfg { at, .. } => if cfg_removed {
                prev
            } else {
                prev.push(ReduceError { kind: ReduceErrorKind::CfgPosition, at: at })
            },
            Attr::CfgAttr { at } => prev.push(
                ReduceError { kind: ReduceErrorKind::CfgPosition, at: at },
            ),
            Attr::Other { .. } => prev,
        }
    }
}

/// Inspecting a single attribute where nothing can be gated raises one
/// error for a `cfg` or `cfg_attr`, and none for a plain attribute.
pub proof fn inspect_single(a: Attr)
    ensures
        inspect_errors(seq![a], false) == match a {
            Attr::Other { .. } => Seq::<ReduceError>::empty(),
            _ => seq![ReduceError { kind: ReduceErrorKind::CfgPosition, at: attr_at(a) }],
        },
{
    let s = seq![a];
    assert(s.drop_last() =~= Seq::<Attr>::empty());
    assert(inspect_errors(Seq::<Attr>::empty(), false) =~= Seq::<ReduceError>::empty());
    assert(s.last() == a);
    match a {
        Attr::Other { .. } => {},
        _ => {
            assert(Seq::<ReduceError>::empty().push(
                ReduceError { kind: ReduceErrorKind::CfgPosition, at: attr_at(a) },
            ) =~= seq![ReduceError { kind: ReduceErrorKind::CfgPosition, at: attr_at(a) }]);
        },
    }
}

/// The tags of a list of attributes.
pub open spec fn attr_tags(attrs: Seq<Attr>) -> Seq<u64> {
    attrs.map_values(|a: Attr| attr_at(a))
}

/// The outcome of reducing syntax: what survives, in reading order, and
/// the errors raised, in the order they are raised.
pub struct Reduced {
    pub kept: Seq<KeptView>,
    pub errors: Seq<ReduceError>,
}

/// Nothing kept and nothing raised.
pub open spec fn nothing() -> Reduced {
    Reduced { kept: Seq::empty(), errors: Seq::empty() }
}

/// One outcome followed by another.
pub open spec fn then(a: Reduced, b: Reduced) -> Reduced {
    Reduced { kept: a.kept + b.kept, errors: a.errors + b.errors }
}

/// How a list member is selected: a gated element or module item by its
/// own attributes; a fixed member is always kept, with all its attributes.
pub open spec fn member_selection(sel: Selection, n: Node) -> AttrSelection {
    match n.position {
        Position::Fixed => AttrSelection {
            enabled: true,
            kept: attr_tags(n.attrs@),
            errors: Seq::empty(),
        },
        _ => select_attrs(sel, n.attrs@),
    }
}

/// The errors of selecting every member of a list, in member order.
pub open spec fn selection_errors(sel: Selection, nodes: Seq<Node>) -> Seq<ReduceError>
    decreases nodes.len(),
{
    if nodes.len() == 0 {
        Seq::empty()
    } else {
        selection_errors(sel, nodes.drop_last()) + member_selection(sel, nodes.last()).errors
    }
}

/// The errors of reading a surviving element's own attributes: a gated
/// element's remaining attributes, none of a module item's, all of a fixed
/// member's.
pub open spec fn own_errors(n: Node) -> Seq<ReduceError> {
    match n.position {
        Position::Gated => inspect_errors(n.attrs@, true),
        Position::Module => Seq::empty(),
        Position::Fixed => inspect_errors(n.attrs@, false),
    }
}

/// Reads the surviving members of a list, in order; a removed member is
/// passed over with everything nested in it, unread.
pub open spec fn visit_members(sel: Selection, nodes: Seq<Node>) -> Reduced
    decreases nodes,
{
    if nodes.len() == 0 {
        nothing()
    } else {
        let prev = visit_members(sel, nodes.drop_last());
        if member_selection(sel, nodes.last()).enabled {
            then(prev, visit_node(sel, nodes.last()))
        } else {
            prev
        }
    }
}

/// Reads a surviving element: it is kept with the attributes its selection
/// keeps; its own attributes are read, then its parts.
pub open spec fn visit_node(sel: Selection, n: Node) -> Reduced
    decreases n,
{
    let p = visit_parts(sel, n.parts@);
    Reduced {
        kept: seq![KeptView { at: n.at, attrs: member_selection(sel, n).kept }] + p.kept,
        errors: own_errors(n) + p.errors,
    }
}

/// Reads an element's parts in order: an attribute where nothing can be
/// gated raises an error if it is a `cfg` or `cfg_attr`; a nested list is
/// reduced.
pub open spec fn visit_parts(sel: Selection, parts: Seq<Part>) -> Reduced
    decreases parts,
{
    if parts.len() == 0 {
        nothing()
    } else {
        let prev = visit_parts(sel, parts.drop_last());
        match parts.last() {
            Part::Inspect(a) => then(
                prev,
                Reduced { kept: Seq::empty(), errors: inspect_errors(seq![a], false) },
            ),
            Part::Nested { between, members } => {
                let b = visit_parts(sel, between@);
                let m = visit_members(sel, members@);
                then(
                    prev,
                    Reduced {
                        kept: b.kept + m.kept,
                        errors: selection_errors(sel, members@) + b.errors + m.errors,
                    },
                )
            },
        }
    }
}

/// Reduces a list: every member's selection first, then the surviving
/// members read in turn.
pub open spec fn reduce_list(sel: Selection, nodes: Seq<Node>) -> Reduced {
    let m = visit_members(sel, nodes);
    Reduced { kept: m.kept, errors: selection_errors(sel, nodes) + m.errors }
}

/// Whether every software argument is a registered software feature.
pub open spec fn software_registered(software: Seq<String>) -> bool {
    forall|k: int| 0 <= k < software.len() ==> software_feature(#[trigger] software[k]@)
}

/// What reducing a module for a chip, an optional system and a software
/// list gives: refused for an unregistered chip, then for a system that is
/// unregistered or registered for another chip, then for a software
/// argument that is not registered, then for a module without a body;
/// otherwise the surviving elements when no error was raised, or every
/// error raised.
pub open spec fn reduce_result(
    chip: Seq<char>,
    system: Option<Seq<char>>,
    software: Seq<String>,
    module: AppModule,
) -> Result<Seq<KeptView>, Seq<ReduceError>> {
    if chip_for_feature(chip) is None {
        Err(seq![ReduceError { kind: ReduceErrorKind::UnknownChip, at: module.at }])
    } else if system matches Some(s) && !(system_for_feature(s) matches Some(v) && chip_feature(
        system_chip(v),
    ) == chip) {
        Err(seq![ReduceError { kind: ReduceErrorKind::SystemMismatch, at: module.at }])
    } else if !software_registered(software) {
        Err(seq![ReduceError { kind: ReduceErrorKind::UnknownSoftware, at: module.at }])
    } else {
        match module.content {
            None => Err(seq![ReduceError { kind: ReduceErrorKind::NotInline, at: module.at }]),
            Some(nodes) => {
                let r = reduce_list(selection_for(chip, system, software), nodes@);
                if r.errors.len() == 0 {
                    Ok(r.kept)
                } else {
                    Err(r.errors)
                }
            },
        }
    }
}

} // verus!
