//! Chip cfg reduction before interrupt-framework expansion: removes the
//! elements of a module body that the selected chip, system, board and
//! software features do not enable, and refuses conditional syntax it
//! cannot decide, rather than silently producing a different task and
//! resource graph. Errors are raised list by list: every member's
//! selection first, then each surviving member with what is nested in it.
//!
//! The selected chip is an explicit argument, never the host's environment.

use vstd::prelude::*;

pub mod features;
pub mod laws;
pub mod model;

use crate::catalog::chips::Chip;
use crate::catalog::items::{BoardConfig, Peripheral, Pin};
use crate::catalog::systems::system_config;
use crate::firmware::selection::is_enabled;
use crate::text::str_eq;
use model::{
    all_true, any_true, attr_tags, eval_predicate, eval_predicates, feature_value, inspect_errors,
    member_selection, own_errors, reduce_list, selection_errors, visit_members, visit_node,
    visit_parts, Part, reduce_result, select_attrs, selection_for, software_feature, software_registered,
    board_pin_value, board_peripheral_value, pin_for_cfg_name, peripheral_for_cfg_name, Attr, AppModule, CfgPredicate, KeptNode, KeptView,
    Node, Position, PredicateForm, ReduceError, ReduceErrorKind, Selection,
};

verus! {

/// The views of a list of kept elements.
pub open spec fn kept_views(kept: Seq<KeptNode>) -> Seq<KeptView> {
    kept.map_values(|k: KeptNode| k@)
}

/// Whether every value is true.
fn all_of(values: &Vec<bool>) -> (all: bool)
    ensures
        all == all_true(values@),
{
    let n = values.len();
    let mut i: usize = 0;
    while i < n
        invariant
            n == values@.len(),
            i <= n,
            forall|j: int| 0 <= j < i ==> values@[j],
        decreases n - i,
    {
        if !values[i] {
            return false;
        }
        i = i + 1;
    }
    true
}

/// Whether some value is true.
fn any_of(values: &Vec<bool>) -> (any: bool)
    ensures
        any == any_true(values@),
{
    let n = values.len();
    let mut i: usize = 0;
    while i < n
        invariant
            n == values@.len(),
            i <= n,
            forall|j: int| 0 <= j < i ==> !values@[j],
        decreases n - i,
    {
        if values[i] {
            return true;
        }
        i = i + 1;
    }
    false
}

/// Once a prefix of a predicate list fails, the whole list fails with the
/// same error.
proof fn lemma_first_error(sel: Selection, ps: Seq<CfgPredicate>, k: int)
    requires
        0 <= k <= ps.len(),
        eval_predicates(sel, ps.take(k)) is Err,
    ensures
        eval_predicates(sel, ps) == eval_predicates(sel, ps.take(k)),
    decreases ps.len(),
{
    if k < ps.len() {
        assert(ps.drop_last().take(k) =~= ps.take(k));
        lemma_first_error(sel, ps.drop_last(), k);
    } else {
        assert(ps.take(k) =~= ps);
    }
}

/// Whether `name` is a registered software feature.
fn is_software_feature(name: &str) -> (found: bool)
    ensures
        found == software_feature(name@),
{
    str_eq(name, "sw-report")
}

/// Whether `name` is the cfg name of a pin.
fn is_pin_name(name: &str) -> (found: bool)
    ensures
        found == (pin_for_cfg_name(name@) is Some),
{
    str_eq(name, Pin::Led1.cfg_name()) || str_eq(name, Pin::Led2.cfg_name()) || str_eq(
        name,
        Pin::Led3.cfg_name(),
    ) || str_eq(name, Pin::Serial1.cfg_name()) || str_eq(name, Pin::Serial2.cfg_name()) || str_eq(
        name,
        Pin::Serial3.cfg_name(),
    ) || str_eq(name, Pin::Pwm1.cfg_name()) || str_eq(name, Pin::Pwm2.cfg_name())
}

/// Whether `name` is the cfg name of a peripheral.
fn is_peripheral_name(name: &str) -> (found: bool)
    ensures
        found == (peripheral_for_cfg_name(name@) is Some),
{
    str_eq(name, Peripheral::Usart1.cfg_name()) || str_eq(name, Peripheral::Usart2.cfg_name())
        || str_eq(name, Peripheral::Usart6.cfg_name()) || str_eq(name, Peripheral::Tim3.cfg_name())
        || str_eq(name, Peripheral::Tim4.cfg_name()) || str_eq(name, Peripheral::Tim5.cfg_name())
}

/// The reduction in progress: the selection, and the errors recorded so far.
pub struct Reducer<'a> {
    chip: &'a str,
    system: Option<&'a str>,
    board: Option<&'a BoardConfig>,
    software: &'a Vec<String>,
    errors: Vec<ReduceError>,
}

impl<'a> Reducer<'a> {
    /// The chip, system, board and software features this reducer selects
    /// for.
    pub closed spec fn selection(&self) -> Selection {
        Selection {
            chip: self.chip@,
            system: match self.system {
                Some(s) => Some(s@),
                None => None,
            },
            board: match self.board {
                Some(b) => Some(b@),
                None => None,
            },
            software: self.software@,
        }
    }

    /// The errors recorded so far.
    pub closed spec fn recorded(&self) -> Seq<ReduceError> {
        self.errors@
    }

    /// What `feature = "name"` evaluates to under this selection.
    fn feature(&self, name: &str) -> (value: Option<bool>)
        ensures
            value == feature_value(self.selection(), name@),
    {
        if Chip::from_cargo_feature(name).is_some() {
            Some(str_eq(name, self.chip))
        } else if system_config(name).is_some() {
            match self.system {
                Some(system) => Some(str_eq(system, name)),
                None => Some(false),
            }
        } else if is_software_feature(name) {
            Some(is_enabled(self.software, name))
        } else {
            None
        }
    }

    /// What `board_pin = "name"` evaluates to under this selection.
    fn board_pin(&self, name: &str) -> (value: Option<bool>)
        ensures
            value == board_pin_value(self.selection(), name@),
    {
        if is_pin_name(name) {
            match self.board {
                Some(b) => Some(b.has_pin(name)),
                None => Some(false),
            }
        } else {
            None
        }
    }

    /// What `board_peripheral = "name"` evaluates to under this selection.
    fn board_peripheral(&self, name: &str) -> (value: Option<bool>)
        ensures
            value == board_peripheral_value(self.selection(), name@),
    {
        if is_peripheral_name(name) {
            match self.board {
                Some(b) => Some(b.has_peripheral(name)),
                None => Some(false),
            }
        } else {
            None
        }
    }

    /// Evaluates a predicate. Every operand is evaluated, including those
    /// short-circuiting would skip, so that each is validated.
    fn predicate(&self, p: &CfgPredicate) -> (value: Result<bool, ReduceError>)
        ensures
            value == eval_predicate(self.selection(), *p),
        decreases p,
    {
        let unsupported = ReduceError { kind: ReduceErrorKind::UnsupportedPredicate, at: p.at };
        match &p.form {
            PredicateForm::Feature(name) => match self.feature(name.as_str()) {
                Some(b) => Ok(b),
                None => Err(unsupported),
            },
            PredicateForm::BoardPin(name) => match self.board_pin(name.as_str()) {
                Some(b) => Ok(b),
                None => Err(unsupported),
            },
            PredicateForm::BoardPeripheral(name) => match self.board_peripheral(name.as_str()) {
                Some(b) => Ok(b),
                None => Err(unsupported),
            },
            PredicateForm::All(args) | PredicateForm::Any(args) | PredicateForm::Not(args) => {
                let n = args.len();
                let mut values: Vec<bool> = Vec::new();
                let mut i: usize = 0;
                while i < n
                    invariant
                        n == args@.len(),
                        i <= n,
                        eval_predicates(self.selection(), args@.take(i as int)) == Ok::<
                            Seq<bool>,
                            ReduceError,
                        >(values@),
                        p.form == PredicateForm::All(*args) || p.form == PredicateForm::Any(*args)
                            || p.form == PredicateForm::Not(*args),
                    decreases n - i,
                {
                    proof {
                        assert(args@.take(i + 1).drop_last() =~= args@.take(i as int));
                        assert(args@.take(i + 1).last() == args@[i as int]);
                        assert(decreases_to!(*p => p.form));
                        assert(decreases_to!(p.form => *args));
                        assert(decreases_to!(*args => args@));
                        assert(decreases_to!(args@ => args@[i as int]));
                    }
                    match self.predicate(&args[i]) {
                        Ok(b) => values.push(b),
                        Err(e) => {
                            proof {
                                lemma_first_error(self.selection(), args@, i + 1);
                            }
                            return Err(e);
                        },
                    }
                    i = i + 1;
                }
                proof {
                    assert(args@.take(n as int) =~= args@);
                }
                match &p.form {
                    PredicateForm::All(_) => Ok(all_of(&values)),
                    PredicateForm::Any(_) => Ok(any_of(&values)),
                    _ => if values.len() == 1 {
                        Ok(!values[0])
                    } else {
                        Err(ReduceError { kind: ReduceErrorKind::NotArity, at: p.at })
                    },
                }
            },
            PredicateForm::Malformed => Err(
                ReduceError { kind: ReduceErrorKind::MalformedPredicate, at: p.at },
            ),
            PredicateForm::Unsupported => Err(unsupported),
        }
    }

    /// Records one error.
    fn record(&mut self, error: ReduceError)
        ensures
            final(self).selection() == old(self).selection(),
            final(self).recorded() == old(self).recorded().push(error),
    {
        self.errors.push(error);
    }

    /// Selects an element by its attributes: returns whether every `cfg`
    /// that evaluates holds, and the tags of the attributes that stay (all
    /// but the `cfg`s: even a `cfg` that holds is not copied on). A `cfg_attr`
    /// stays and is recorded as an error.
    fn attributes(&mut self, attrs: &Vec<Attr>) -> (selected: (bool, Vec<u64>))
        ensures
            final(self).selection() == old(self).selection(),
            selected.0 == select_attrs(old(self).selection(), attrs@).enabled,
            selected.1@ == select_attrs(old(self).selection(), attrs@).kept,
            final(self).recorded() == old(self).recorded() + select_attrs(
                old(self).selection(),
                attrs@,
            ).errors,
    {
        let ghost sel = self.selection();
        let ghost start = self.recorded();
        let n = attrs.len();
        let mut enabled = true;
        let mut kept: Vec<u64> = Vec::new();
        let mut i: usize = 0;
        while i < n
            invariant
                n == attrs@.len(),
                i <= n,
                self.selection() == sel,
                enabled == select_attrs(sel, attrs@.take(i as int)).enabled,
                kept@ == select_attrs(sel, attrs@.take(i as int)).kept,
                self.recorded() == start + select_attrs(sel, attrs@.take(i as int)).errors,
            decreases n - i,
        {
            proof {
                assert(attrs@.take(i + 1).drop_last() =~= attrs@.take(i as int));
                assert(attrs@.take(i + 1).last() == attrs@[i as int]);
            }
            match &attrs[i] {
                Attr::Cfg { at, predicate } => match self.predicate(predicate) {
                    Ok(value) => {
                        enabled = enabled && value;
                    },
                    Err(error) => {
                        self.record(error);
                        proof {
                            assert(start + select_attrs(sel, attrs@.take(i as int)).errors.push(
                                error,
                            ) =~= start + select_attrs(sel, attrs@.take(i + 1)).errors);
                        }
                    },
                },
                Attr::CfgAttr { at } => {
                    kept.push(*at);
                    let error = ReduceError { kind: ReduceErrorKind::CfgAttrUnsupported, at: *at };
                    self.record(error);
                    proof {
                        assert(start + select_attrs(sel, attrs@.take(i as int)).errors.push(error)
                            =~= start + select_attrs(sel, attrs@.take(i + 1)).errors);
                    }
                },
                Attr::Other { at } => {
                    kept.push(*at);
                },
            }
            i = i + 1;
        }
        proof {
            assert(attrs@.take(n as int) =~= attrs@);
        }
        (enabled, kept)
    }

    /// Inspects attributes where nothing can be gated, failing closed: each
    /// `cfg_attr`, and each `cfg` unless the `cfg`s were removed by selection,
    /// is recorded as an error.
    fn inspect(&mut self, attrs: &Vec<Attr>, cfg_removed: bool)
        ensures
            final(self).selection() == old(self).selection(),
            final(self).recorded() == old(self).recorded() + inspect_errors(attrs@, cfg_removed),
    {
        let ghost start = self.recorded();
        let n = attrs.len();
        let mut i: usize = 0;
        while i < n
            invariant
                n == attrs@.len(),
                i <= n,
                self.selection() == old(self).selection(),
                self.recorded() == start + inspect_errors(attrs@.take(i as int), cfg_removed),
            decreases n - i,
        {
            proof {
                assert(attrs@.take(i + 1).drop_last() =~= attrs@.take(i as int));
                assert(attrs@.take(i + 1).last() == attrs@[i as int]);
            }
            let flagged = match &attrs[i] {
                Attr::Cfg { at, .. } => if cfg_removed {
                    None
                } else {
                    Some(*at)
                },
                Attr::CfgAttr { at } => Some(*at),
                Attr::Other { .. } => None,
            };
            if let Some(at) = flagged {
                let error = ReduceError { kind: ReduceErrorKind::CfgPosition, at };
                self.record(error);
                proof {
                    assert(start + inspect_errors(attrs@.take(i as int), cfg_removed).push(error)
                        =~= start + inspect_errors(attrs@.take(i + 1), cfg_removed));
                }
            } else {
                proof {
                    assert(inspect_errors(attrs@.take(i as int), cfg_removed) =~= inspect_errors(
                        attrs@.take(i + 1),
                        cfg_removed,
                    ));
                }
            }
            i = i + 1;
        }
        proof {
            assert(attrs@.take(n as int) =~= attrs@);
        }
    }

    /// Inspects one attribute where nothing can be gated.
    fn inspect_one(&mut self, attr: &Attr)
        ensures
            final(self).selection() == old(self).selection(),
            final(self).recorded() == old(self).recorded() + inspect_errors(seq![*attr], false),
    {
        let ghost start = self.recorded();
        proof {
            model::inspect_single(*attr);
        }
        match attr {
            Attr::Cfg { at, .. } | Attr::CfgAttr { at } => {
                let error = ReduceError { kind: ReduceErrorKind::CfgPosition, at: *at };
                self.record(error);
                assert(self.recorded() =~= start + inspect_errors(seq![*attr], false));
            },
            Attr::Other { .. } => {
                assert(start =~= start + inspect_errors(seq![*attr], false));
            },
        }
    }

    /// Selects every member of a list by its own attributes: whether each
    /// survives, and the tags of the attributes it keeps.
    fn select_members(&mut self, nodes: &Vec<Node>) -> (sels: Vec<(bool, Vec<u64>)>)
        ensures
            final(self).selection() == old(self).selection(),
            sels@.len() == nodes@.len(),
            forall|i: int|
                0 <= i < nodes@.len() ==> #[trigger] sels@[i].0 == member_selection(
                    old(self).selection(),
                    nodes@[i],
                ).enabled && sels@[i].1@ == member_selection(old(self).selection(), nodes@[i]).kept,
            final(self).recorded() == old(self).recorded() + selection_errors(
                old(self).selection(),
                nodes@,
            ),
    {
        let ghost sel = self.selection();
        let ghost start = self.recorded();
        let n = nodes.len();
        let mut sels: Vec<(bool, Vec<u64>)> = Vec::new();
        let mut i: usize = 0;
        while i < n
            invariant
                n == nodes@.len(),
                i <= n,
                self.selection() == sel,
                sels@.len() == i,
                forall|j: int|
                    0 <= j < i ==> #[trigger] sels@[j].0 == member_selection(sel, nodes@[j]).enabled
                        && sels@[j].1@ == member_selection(sel, nodes@[j]).kept,
                self.recorded() == start + selection_errors(sel, nodes@.take(i as int)),
            decreases n - i,
        {
            proof {
                assert(nodes@.take(i + 1).drop_last() =~= nodes@.take(i as int));
                assert(nodes@.take(i + 1).last() == nodes@[i as int]);
            }
            let node = &nodes[i];
            let ghost before = self.recorded();
            let selected = match node.position {
                Position::Fixed => (true, attribute_tags(&node.attrs)),
                _ => self.attributes(&node.attrs),
            };
            proof {
                assert(self.recorded() =~= start + selection_errors(sel, nodes@.take(i + 1)));
            }
            sels.push(selected);
            i = i + 1;
        }
        proof {
            assert(nodes@.take(n as int) =~= nodes@);
        }
        sels
    }

    /// Reads the surviving members of a list in order, appending what
    /// survives to `out`.
    fn visit_members(&mut self, nodes: &Vec<Node>, sels: &Vec<(bool, Vec<u64>)>, out: &mut Vec<KeptNode>)
        requires
            sels@.len() == nodes@.len(),
            forall|i: int|
                0 <= i < nodes@.len() ==> #[trigger] sels@[i].0 == member_selection(
                    old(self).selection(),
                    nodes@[i],
                ).enabled && sels@[i].1@ == member_selection(old(self).selection(), nodes@[i]).kept,
        ensures
            final(self).selection() == old(self).selection(),
            kept_views(final(out)@) == kept_views(old(out)@) + visit_members(
                old(self).selection(),
                nodes@,
            ).kept,
            final(self).recorded() == old(self).recorded() + visit_members(
                old(self).selection(),
                nodes@,
            ).errors,
        decreases nodes,
    {
        let ghost sel = self.selection();
        let ghost start = self.recorded();
        let ghost out_start = kept_views(out@);
        let n = nodes.len();
        let mut i: usize = 0;
        proof {
            assert(nodes@.take(0) =~= Seq::<Node>::empty());
            assert(out_start =~= out_start + Seq::<KeptView>::empty());
            assert(start =~= start + Seq::<ReduceError>::empty());
        }
        while i < n
            invariant
                n == nodes@.len(),
                i <= n,
                sels@.len() == n,
                forall|j: int|
                    0 <= j < n ==> #[trigger] sels@[j].0 == member_selection(sel, nodes@[j]).enabled
                        && sels@[j].1@ == member_selection(sel, nodes@[j]).kept,
                self.selection() == sel,
                kept_views(out@) == out_start + visit_members(sel, nodes@.take(i as int)).kept,
                self.recorded() == start + visit_members(sel, nodes@.take(i as int)).errors,
            decreases n - i,
        {
            proof {
                assert(nodes@.take(i + 1).drop_last() =~= nodes@.take(i as int));
                assert(nodes@.take(i + 1).last() == nodes@[i as int]);
            }
            let ghost prev = visit_members(sel, nodes@.take(i as int));
            if sels[i].0 {
                proof {
                    assert(decreases_to!(nodes => nodes@));
                    assert(decreases_to!(nodes@ => nodes@[i as int]));
                }
                let kept = copy_tags(&sels[i].1);
                let ghost out_before = kept_views(out@);
                let ghost rec_before = self.recorded();
                self.visit_node(&nodes[i], kept, out);
                proof {
                    let v = visit_node(sel, nodes@[i as int]);
                    assert(kept_views(out@) =~= out_start + visit_members(sel, nodes@.take(i + 1)).kept);
                    assert(self.recorded() =~= start + visit_members(sel, nodes@.take(i + 1)).errors);
                }
            }
            i = i + 1;
        }
        proof {
            assert(nodes@.take(n as int) =~= nodes@);
        }
    }

    /// Reads a surviving element: keeps it with `kept`, reads its own
    /// attributes, then its parts.
    fn visit_node(&mut self, node: &Node, kept: Vec<u64>, out: &mut Vec<KeptNode>)
        requires
            kept@ == member_selection(old(self).selection(), *node).kept,
        ensures
            final(self).selection() == old(self).selection(),
            kept_views(final(out)@) == kept_views(old(out)@) + visit_node(
                old(self).selection(),
                *node,
            ).kept,
            final(self).recorded() == old(self).recorded() + visit_node(
                old(self).selection(),
                *node,
            ).errors,
        decreases node,
    {
        let ghost sel = self.selection();
        let ghost start = self.recorded();
        let ghost out_start = kept_views(out@);
        let k = KeptNode { at: node.at, attrs: kept };
        out.push(k);
        proof {
            assert(kept_views(out@) =~= out_start.push(k@));
        }
        match node.position {
            Position::Gated => self.inspect(&node.attrs, true),
            Position::Module => {},
            Position::Fixed => self.inspect(&node.attrs, false),
        }
        proof {
            assert(self.recorded() == start + own_errors(*node));
            assert(decreases_to!(*node => node.parts));
            assert(decreases_to!(node.parts => node.parts@));
        }
        self.visit_parts(&node.parts, out);
        proof {
            let p = visit_parts(sel, node.parts@);
            assert(kept_views(out@) =~= out_start + visit_node(sel, *node).kept);
            assert(self.recorded() =~= start + visit_node(sel, *node).errors);
        }
    }

    /// Reads an element's parts in order.
    fn visit_parts(&mut self, parts: &Vec<Part>, out: &mut Vec<KeptNode>)
        ensures
            final(self).selection() == old(self).selection(),
            kept_views(final(out)@) == kept_views(old(out)@) + visit_parts(
                old(self).selection(),
                parts@,
            ).kept,
            final(self).recorded() == old(self).recorded() + visit_parts(
                old(self).selection(),
                parts@,
            ).errors,
        decreases parts,
    {
        let ghost sel = self.selection();
        let ghost start = self.recorded();
        let ghost out_start = kept_views(out@);
        let n = parts.len();
        let mut i: usize = 0;
        proof {
            assert(parts@.take(0) =~= Seq::<Part>::empty());
            assert(out_start =~= out_start + Seq::<KeptView>::empty());
            assert(start =~= start + Seq::<ReduceError>::empty());
        }
        while i < n
            invariant
                n == parts@.len(),
                i <= n,
                self.selection() == sel,
                kept_views(out@) == out_start + visit_parts(sel, parts@.take(i as int)).kept,
                self.recorded() == start + visit_parts(sel, parts@.take(i as int)).errors,
            decreases n - i,
        {
            proof {
                assert(parts@.take(i + 1).drop_last() =~= parts@.take(i as int));
                assert(parts@.take(i + 1).last() == parts@[i as int]);
                assert(decreases_to!(parts => parts@));
                assert(decreases_to!(parts@ => parts@[i as int]));
            }
            let ghost out_before = kept_views(out@);
            let ghost rec_before = self.recorded();
            match &parts[i] {
                Part::Inspect(attr) => {
                    self.inspect_one(attr);
                    proof {
                        assert(kept_views(out@) =~= out_start + visit_parts(sel, parts@.take(i + 1)).kept);
                        assert(self.recorded() =~= start + visit_parts(sel, parts@.take(i + 1)).errors);
                    }
                },
                Part::Nested { between, members } => {
                    proof {
                        assert(decreases_to!(parts@[i as int] => *between));
                        assert(decreases_to!(*between => between@));
                        assert(decreases_to!(parts@[i as int] => *members));
                        assert(decreases_to!(*members => members@));
                    }
                    let sels = self.select_members(members);
                    let ghost after_sel = self.recorded();
                    self.visit_parts(between, out);
                    let ghost out_mid = kept_views(out@);
                    let ghost rec_mid = self.recorded();
                    self.visit_members(members, &sels, out);
                    proof {
                        assert(kept_views(out@) =~= out_start + visit_parts(sel, parts@.take(i + 1)).kept);
                        assert(self.recorded() =~= start + visit_parts(sel, parts@.take(i + 1)).errors);
                    }
                },
            }
            i = i + 1;
        }
        proof {
            assert(parts@.take(n as int) =~= parts@);
        }
    }
}

/// A copy of a list of tags.
fn copy_tags(tags: &Vec<u64>) -> (copy: Vec<u64>)
    ensures
        copy@ == tags@,
{
    let mut copy: Vec<u64> = Vec::new();
    let mut i: usize = 0;
    while i < tags.len()
        invariant
            i <= tags@.len(),
            copy@ == tags@.take(i as int),
        decreases tags@.len() - i,
    {
        copy.push(tags[i]);
        proof {
            assert(copy@ =~= tags@.take(i + 1));
        }
        i = i + 1;
    }
    proof {
        assert(tags@.take(tags@.len() as int) =~= tags@);
    }
    copy
}

/// The tags of every attribute, in order.
fn attribute_tags(attrs: &Vec<Attr>) -> (tags: Vec<u64>)
    ensures
        tags@ == attr_tags(attrs@),
{
    let n = attrs.len();
    let mut tags: Vec<u64> = Vec::new();
    let mut i: usize = 0;
    while i < n
        invariant
            n == attrs@.len(),
            i <= n,
            tags@ =~= attr_tags(attrs@.take(i as int)),
        decreases n - i,
    {
        let at = match &attrs[i] {
            Attr::Cfg { at, .. } => *at,
            Attr::CfgAttr { at } => *at,
            Attr::Other { at } => *at,
        };
        tags.push(at);
        proof {
            assert(attr_tags(attrs@.take(i + 1)) =~= attr_tags(attrs@.take(i as int)).push(at));
        }
        i = i + 1;
    }
    proof {
        assert(attrs@.take(n as int) =~= attrs@);
    }
    tags
}

/// A list holding one error.
fn single_error(kind: ReduceErrorKind, at: u64) -> (errors: Vec<ReduceError>)
    ensures
        errors@ == seq![ReduceError { kind, at }],
{
    let mut errors = Vec::new();
    errors.push(ReduceError { kind, at });
    assert(errors@ =~= seq![ReduceError { kind, at }]);
    errors
}

/// The system argument, as plain values.
pub open spec fn system_arg(system: Option<&str>) -> Option<Seq<char>> {
    match system {
        Some(s) => Some(s@),
        None => None,
    }
}

/// Whether every software argument is a registered software feature.
fn all_software_registered(software: &Vec<String>) -> (registered: bool)
    ensures
        registered == software_registered(software@),
{
    let n = software.len();
    let mut k: usize = 0;
    while k < n
        invariant
            n == software@.len(),
            k <= n,
            forall|j: int| 0 <= j < k ==> software_feature(#[trigger] software@[j]@),
        decreases n - k,
    {
        if !is_software_feature(software[k].as_str()) {
            return false;
        }
        k = k + 1;
    }
    true
}

/// Reduces an inline module for `chip`, optionally `system`, and the
/// software features in `software`: refuses an unregistered chip, a system
/// that is unregistered or registered for another chip, an unregistered
/// software feature, and a module without a body; otherwise removes every
/// element that the selection disables and returns what survives, or every
/// error raised, in the order `reduce_list` raises them.
pub fn reduce(chip: &str, system: Option<&str>, software: &Vec<String>, module: &AppModule) -> (result: Result<
    Vec<KeptNode>,
    Vec<ReduceError>,
>)
    ensures
        match result {
            Ok(kept) => reduce_result(chip@, system_arg(system), software@, *module) == Ok::<
                Seq<KeptView>,
                Seq<ReduceError>,
            >(kept_views(kept@)),
            Err(errors) => reduce_result(chip@, system_arg(system), software@, *module) == Err::<
                Seq<KeptView>,
                Seq<ReduceError>,
            >(errors@),
        },
{
    if Chip::from_cargo_feature(chip).is_none() {
        return Err(single_error(ReduceErrorKind::UnknownChip, module.at));
    }
    let config = match system {
        Some(name) => match system_config(name) {
            Some(config) => {
                if !str_eq(config.chip().cargo_feature(), chip) {
                    return Err(single_error(ReduceErrorKind::SystemMismatch, module.at));
                }
                Some(config)
            },
            None => {
                return Err(single_error(ReduceErrorKind::SystemMismatch, module.at));
            },
        },
        None => None,
    };
    if !all_software_registered(software) {
        return Err(single_error(ReduceErrorKind::UnknownSoftware, module.at));
    }
    let board = match &config {
        Some(c) => c.board_config(),
        None => None,
    };
    match &module.content {
        None => Err(single_error(ReduceErrorKind::NotInline, module.at)),
        Some(nodes) => {
            let mut reducer = Reducer { chip, system, board, software, errors: Vec::new() };
            let ghost sel = selection_for(chip@, system_arg(system), software@);
            assert(reducer.selection() == sel);
            assert(reducer.recorded() =~= Seq::<ReduceError>::empty());
            let sels = reducer.select_members(nodes);
            let mut kept: Vec<KeptNode> = Vec::new();
            assert(kept_views(kept@) =~= Seq::<KeptView>::empty());
            reducer.visit_members(nodes, &sels, &mut kept);
            assert(kept_views(kept@) =~= reduce_list(sel, nodes@).kept);
            assert(reducer.recorded() =~= reduce_list(sel, nodes@).errors);
            if reducer.errors.len() == 0 {
                Ok(kept)
            } else {
                Err(reducer.errors)
            }
        },
    }
}

} // verus!
