//! Properties of chip reduction that hold for every module body.

use vstd::prelude::*;

use super::model::{
    member_selection, own_errors, reduce_list, selection_errors, visit_members, visit_node,
    visit_parts, Part,
    attr_at, attr_tags, eval_predicate, inspect_errors, reduce_result, select_attrs,
    Attr, AppModule, CfgPredicate, Node, Position, PredicateForm, ReduceError, Selection,
    selection_for,
};
use super::features::{
    all_hold, any_holds, attrs_hold, feature_attr_at, feature_holds, feature_reduce_from,
    kept_tags, FeatureAttr, FeatureNode, FeaturePosition, FeaturePredicate,
};
use super::model::KeptView;
use super::model::{all_true, any_true, eval_predicates, software_registered, ReduceErrorKind};
use crate::catalog::chips::{chip_feature, chip_for_feature, Chip};
use crate::catalog::items::{
    board_has_peripheral, board_has_pin, peripheral_cfg_name, pin_cfg_name, Peripheral, Pin,
};
use crate::catalog::systems::{registered_systems, system_chip, system_for_feature};
use crate::firmware::selection::enabled;

verus! {

/// Selection keeps the tags of `cfg_attr` and plain attributes only, and
/// raises an error for each `cfg_attr`.
proof fn selection_keeps_plain_when_clean(sel: Selection, attrs: Seq<Attr>)
    ensures
        select_attrs(sel, attrs).errors.len() == 0 ==> forall|m: int|
            0 <= m < select_attrs(sel, attrs).kept.len() ==> exists|k: int|
                0 <= k < attrs.len() && #[trigger] attrs[k] is Other && attr_at(attrs[k])
                    == #[trigger] select_attrs(sel, attrs).kept[m],
    decreases attrs.len(),
{
    if attrs.len() > 0 {
        let prev = select_attrs(sel, attrs.drop_last());
        selection_keeps_plain_when_clean(sel, attrs.drop_last());
        let s = select_attrs(sel, attrs);
        if s.errors.len() == 0 {
            assert(prev.errors.len() <= s.errors.len());
            assert forall|m: int| 0 <= m < s.kept.len() implies exists|k: int|
                0 <= k < attrs.len() && #[trigger] attrs[k] is Other && attr_at(attrs[k])
                    == #[trigger] s.kept[m] by {
                if m < prev.kept.len() {
                    assert(prev.kept[m] == s.kept[m]);
                    let k = choose|k: int|
                        0 <= k < attrs.drop_last().len() && #[trigger] attrs.drop_last()[k] is Other
                            && attr_at(attrs.drop_last()[k]) == prev.kept[m];
                    assert(attrs[k] == attrs.drop_last()[k]);
                } else {
                    assert(attrs[attrs.len() - 1] == attrs.last());
                }
            }
        }
    }
}

/// Inspecting attributes without removing `cfg`s raises no error only when
/// every attribute is plain.
proof fn inspection_clean_means_plain(attrs: Seq<Attr>)
    ensures
        inspect_errors(attrs, false).len() == 0 ==> forall|k: int|
            0 <= k < attrs.len() ==> #[trigger] attrs[k] is Other,
    decreases attrs.len(),
{
    if attrs.len() > 0 {
        inspection_clean_means_plain(attrs.drop_last());
        if inspect_errors(attrs, false).len() == 0 {
            assert forall|k: int| 0 <= k < attrs.len() implies attrs[k] is Other by {
                if k < attrs.len() - 1 {
                    assert(attrs[k] == attrs.drop_last()[k]);
                }
            }
        }
    }
}

/// A registered chip's feature holds exactly when that chip is selected.
pub proof fn chip_feature_holds_iff_selected(sel: Selection, p: CfgPredicate, chip: Chip)
    requires
        p.form matches PredicateForm::Feature(name) && name@ == chip_feature(chip),
    ensures
        eval_predicate(sel, p) == Ok::<bool, ReduceError>(chip_feature(chip) == sel.chip),
{
    crate::catalog::laws::chip_feature_round_trip(chip);
}

/// A registered system's feature holds exactly when that system is
/// selected.
pub proof fn system_feature_holds_iff_selected(sel: Selection, p: CfgPredicate, i: int)
    requires
        0 <= i < crate::catalog::systems::registered_systems().len(),
        p.form matches PredicateForm::Feature(name) && name@
            == crate::catalog::systems::registered_systems()[i].cargo_feature,
    ensures
        eval_predicate(sel, p) == Ok::<bool, ReduceError>(
            sel.system == Some(crate::catalog::systems::registered_systems()[i].cargo_feature),
        ),
{
    let f = crate::catalog::systems::registered_systems()[i].cargo_feature;
    reveal_strlit("f401");
    reveal_strlit("f405");
    reveal_strlit("f411");
    reveal_strlit("system-nucleo-f401re");
    reveal_strlit("system-default-f401");
    reveal_strlit("system-default-f405");
    reveal_strlit("system-default-f411");
    assert(crate::catalog::chips::chip_for_feature(f) is None) by {
        assert(f.len() > 4);
    }
    crate::catalog::laws::system_config_finds_each(i);
}

/// The tags of all of a list of attributes, for feature reduction.
pub open spec fn feature_attr_tags(attrs: Seq<FeatureAttr>) -> Seq<u64> {
    attrs.map_values(|a: FeatureAttr| feature_attr_at(a))
}

/// Whether a body carries no `cfg` attribute at all.
pub open spec fn cfg_free(nodes: Seq<FeatureNode>) -> bool {
    forall|i: int, k: int|
        0 <= i < nodes.len() && 0 <= k < nodes[i].attrs@.len() ==> #[trigger] nodes[i].attrs@[k] is Other
}

/// Attributes without `cfg` hold and are all kept.
proof fn cfg_free_attributes(features: Seq<String>, position: FeaturePosition, attrs: Seq<FeatureAttr>)
    requires
        forall|k: int| 0 <= k < attrs.len() ==> #[trigger] attrs[k] is Other,
    ensures
        attrs_hold(features, attrs),
        kept_tags(position, attrs) == feature_attr_tags(attrs),
    decreases attrs.len(),
{
    if attrs.len() > 0 {
        let prev = attrs.drop_last();
        assert forall|k: int| 0 <= k < prev.len() implies #[trigger] prev[k] is Other by {
            assert(prev[k] == attrs[k]);
        }
        cfg_free_attributes(features, position, prev);
        assert(attrs[attrs.len() - 1] is Other);
        assert(feature_attr_tags(attrs) =~= feature_attr_tags(prev).push(feature_attr_at(attrs.last())));
    }
}

/// Feature reduction of a `cfg`-free body from element `i` on keeps every
/// element with all its attributes.
proof fn cfg_free_suffix_is_kept(features: Seq<String>, nodes: Seq<FeatureNode>, i: int)
    requires
        0 <= i <= nodes.len(),
        cfg_free(nodes),
    ensures
        feature_reduce_from(features, nodes, i, None) == nodes.subrange(i, nodes.len() as int).map_values(
            |n: FeatureNode| KeptView { at: n.at, attrs: feature_attr_tags(n.attrs@) },
        ),
    decreases nodes.len() - i,
{
    let f = |n: FeatureNode| KeptView { at: n.at, attrs: feature_attr_tags(n.attrs@) };
    if i == nodes.len() {
        assert(nodes.subrange(i, nodes.len() as int).map_values(f) =~= Seq::<KeptView>::empty());
    } else {
        cfg_free_suffix_is_kept(features, nodes, i + 1);
        let node = nodes[i];
        assert forall|k: int| 0 <= k < node.attrs@.len() implies #[trigger] node.attrs@[k] is Other by {
            assert(nodes[i].attrs@[k] is Other);
        }
        cfg_free_attributes(features, node.position, node.attrs@);
        assert(nodes.subrange(i, nodes.len() as int).map_values(f) =~= seq![f(node)]
            + nodes.subrange(i + 1, nodes.len() as int).map_values(f));
    }
}

/// Feature reduction leaves a body without `cfg` attributes as it is: every
/// element is kept, in order, with all its attributes, whatever features
/// are enabled.
pub proof fn cfg_free_body_is_kept_whole(features: Seq<String>, nodes: Seq<FeatureNode>)
    requires
        cfg_free(nodes),
    ensures
        feature_reduce_from(features, nodes, 0, None) == nodes.map_values(
            |n: FeatureNode| KeptView { at: n.at, attrs: feature_attr_tags(n.attrs@) },
        ),
{
    cfg_free_suffix_is_kept(features, nodes, 0);
    assert(nodes.subrange(0, nodes.len() as int) =~= nodes);
}


/// A registered software feature holds exactly when it is switched on in
/// the selection's software list.
pub proof fn software_feature_holds_iff_listed(sel: Selection, p: CfgPredicate)
    requires
        p.form matches PredicateForm::Feature(name) && name@ == "sw-report"@,
    ensures
        eval_predicate(sel, p) == Ok::<bool, ReduceError>(enabled(sel.software, "sw-report"@)),
{
    reveal_strlit("sw-report");
    reveal_strlit("f401");
    reveal_strlit("f405");
    reveal_strlit("f411");
    reveal_strlit("system-nucleo-f401re");
    reveal_strlit("system-default-f401");
    reveal_strlit("system-default-f405");
    reveal_strlit("system-default-f411");
    let name = "sw-report"@;
    assert(chip_for_feature(name) is None) by {
        assert(name.len() != 4);
    }
    assert(system_for_feature(name) is None) by {
        assert forall|i: int| 0 <= i < registered_systems().len() implies #[trigger] registered_systems()[i].cargo_feature != name by {
            assert(registered_systems()[i].cargo_feature.len() > name.len());
        }
    }
}

/// `board_pin = "name"` for a pin's cfg name holds exactly when the
/// selected board declares that pin; without a board it does not hold.
pub proof fn board_pin_holds_iff_declared(sel: Selection, p: CfgPredicate, pin: Pin)
    requires
        p.form matches PredicateForm::BoardPin(name) && name@ == pin_cfg_name(pin),
    ensures
        eval_predicate(sel, p) == Ok::<bool, ReduceError>(
            sel.board matches Some(b) && board_has_pin(b, pin_cfg_name(pin)),
        ),
{
}

/// `board_peripheral = "name"` for a peripheral's cfg name holds exactly
/// when the selected board declares that peripheral; without a board it
/// does not hold.
pub proof fn board_peripheral_holds_iff_declared(sel: Selection, p: CfgPredicate, peripheral: Peripheral)
    requires
        p.form matches PredicateForm::BoardPeripheral(name) && name@ == peripheral_cfg_name(
            peripheral,
        ),
    ensures
        eval_predicate(sel, p) == Ok::<bool, ReduceError>(
            sel.board matches Some(b) && board_has_peripheral(b, peripheral_cfg_name(peripheral)),
        ),
{
}

/// `all`, `any` and `not` combine their operands' values: over two operands
/// that evaluate, `all` is their conjunction and `any` their disjunction;
/// `not` of one operand is its negation; an empty `all` holds and an empty
/// `any` does not; and an operand that fails makes `all` and `any` fail with
/// the first such operand's error, whatever the other gives.
pub proof fn connectives_combine_operands(sel: Selection, a: CfgPredicate, b: CfgPredicate, p: CfgPredicate)
    ensures
        p.form matches PredicateForm::All(args) && args@ == seq![a, b] ==> eval_predicate(sel, p)
            == match (eval_predicate(sel, a), eval_predicate(sel, b)) {
            (Ok(x), Ok(y)) => Ok::<bool, ReduceError>(x && y),
            (Err(e), _) => Err(e),
            (Ok(_), Err(e)) => Err(e),
        },
        p.form matches PredicateForm::Any(args) && args@ == seq![a, b] ==> eval_predicate(sel, p)
            == match (eval_predicate(sel, a), eval_predicate(sel, b)) {
            (Ok(x), Ok(y)) => Ok::<bool, ReduceError>(x || y),
            (Err(e), _) => Err(e),
            (Ok(_), Err(e)) => Err(e),
        },
        p.form matches PredicateForm::Not(args) && args@ == seq![a] ==> eval_predicate(sel, p)
            == match eval_predicate(sel, a) {
            Ok(x) => Ok::<bool, ReduceError>(!x),
            Err(e) => Err(e),
        },
        p.form matches PredicateForm::All(args) && args@.len() == 0 ==> eval_predicate(sel, p)
            == Ok::<bool, ReduceError>(true),
        p.form matches PredicateForm::Any(args) && args@.len() == 0 ==> eval_predicate(sel, p)
            == Ok::<bool, ReduceError>(false),
{
    let one = seq![a];
    let two = seq![a, b];
    assert(two.drop_last() =~= one);
    assert(one.drop_last() =~= Seq::<CfgPredicate>::empty());
    assert(eval_predicates(sel, Seq::<CfgPredicate>::empty()) == Ok::<Seq<bool>, ReduceError>(Seq::empty()));
    match eval_predicate(sel, a) {
        Ok(x) => {
            assert(eval_predicates(sel, one) == Ok::<Seq<bool>, ReduceError>(seq![x])) by {
                assert(Seq::<bool>::empty().push(x) =~= seq![x]);
            }
            match eval_predicate(sel, b) {
                Ok(y) => {
                    assert(eval_predicates(sel, two) == Ok::<Seq<bool>, ReduceError>(seq![x, y])) by {
                        assert(seq![x].push(y) =~= seq![x, y]);
                    }
                    assert(all_true(seq![x, y]) == (x && y));
                    assert(any_true(seq![x, y]) == (x || y)) by {
                        if x {
                            assert(seq![x, y][0]);
                        } else if y {
                            assert(seq![x, y][1]);
                        }
                    }
                },
                Err(e) => {},
            }
        },
        Err(e) => {
            assert(eval_predicates(sel, one) == Err::<Seq<bool>, ReduceError>(e));
        },
    }
}


/// The tags of the plain attributes among `attrs`.
pub open spec fn plain_attr_tags(attrs: Seq<Attr>) -> Set<u64> {
    Set::new(
        |t: u64|
            exists|k: int| 0 <= k < attrs.len() && #[trigger] attrs[k] is Other && attr_at(attrs[k]) == t,
    )
}

/// The tags of the plain attributes anywhere in a list of elements.
pub open spec fn members_plain_tags(nodes: Seq<Node>) -> Set<u64>
    decreases nodes,
{
    if nodes.len() == 0 {
        Set::empty()
    } else {
        members_plain_tags(nodes.drop_last()).union(node_plain_tags(nodes.last()))
    }
}

/// The tags of the plain attributes anywhere in an element.
pub open spec fn node_plain_tags(n: Node) -> Set<u64>
    decreases n,
{
    plain_attr_tags(n.attrs@).union(parts_plain_tags(n.parts@))
}

/// The tags of the plain attributes anywhere in an element's parts.
pub open spec fn parts_plain_tags(parts: Seq<Part>) -> Set<u64>
    decreases parts,
{
    if parts.len() == 0 {
        Set::empty()
    } else {
        parts_plain_tags(parts.drop_last()).union(
            match parts.last() {
                Part::Inspect(a) => plain_attr_tags(seq![a]),
                Part::Nested { between, members } => parts_plain_tags(between@).union(
                    members_plain_tags(members@),
                ),
            },
        )
    }
}

/// Whether every attribute tag that kept elements keep is in `tags`.
pub open spec fn kept_within(kept: Seq<KeptView>, tags: Set<u64>) -> bool {
    forall|m: int, n: int|
        0 <= m < kept.len() && 0 <= n < kept[m].attrs.len() ==> tags.contains(
            #[trigger] kept[m].attrs[n],
        )
}

proof fn kept_within_grows(kept: Seq<KeptView>, small: Set<u64>, large: Set<u64>)
    requires
        kept_within(kept, small),
        small.subset_of(large),
    ensures
        kept_within(kept, large),
{
}

proof fn kept_within_concat(a: Seq<KeptView>, b: Seq<KeptView>, tags: Set<u64>)
    requires
        kept_within(a, tags),
        kept_within(b, tags),
    ensures
        kept_within(a + b, tags),
{
    assert forall|m: int, n: int|
        0 <= m < (a + b).len() && 0 <= n < (a + b)[m].attrs.len() implies tags.contains(
            #[trigger] (a + b)[m].attrs[n],
        ) by {
        if m < a.len() {
            assert((a + b)[m] == a[m]);
        } else {
            assert((a + b)[m] == b[m - a.len()]);
        }
    }
}

/// What a clean selection keeps of an element's own attributes is plain.
proof fn selection_kept_plain(sel: Selection, n: Node)
    requires
        member_selection(sel, n).errors.len() == 0,
        own_errors(n).len() == 0 || n.position != Position::Fixed,
    ensures
        forall|k: int|
            0 <= k < member_selection(sel, n).kept.len() ==> plain_attr_tags(n.attrs@).contains(
                #[trigger] member_selection(sel, n).kept[k],
            ),
{
    let attrs = n.attrs@;
    if n.position == Position::Fixed {
        inspection_clean_means_plain(attrs);
        assert forall|k: int| 0 <= k < attr_tags(attrs).len() implies plain_attr_tags(attrs).contains(
            #[trigger] attr_tags(attrs)[k],
        ) by {
            assert(attrs[k] is Other);
            assert(attr_tags(attrs)[k] == attr_at(attrs[k]));
        }
    } else {
        selection_keeps_plain_when_clean(sel, attrs);
        assert forall|k: int| 0 <= k < select_attrs(sel, attrs).kept.len() implies plain_attr_tags(
            attrs,
        ).contains(#[trigger] select_attrs(sel, attrs).kept[k]) by {
            let j = choose|j: int|
                0 <= j < attrs.len() && #[trigger] attrs[j] is Other && attr_at(attrs[j])
                    == select_attrs(sel, attrs).kept[k];
        }
    }
}

proof fn node_keeps_plain(sel: Selection, n: Node)
    requires
        member_selection(sel, n).errors.len() == 0,
        visit_node(sel, n).errors.len() == 0,
    ensures
        kept_within(visit_node(sel, n).kept, node_plain_tags(n)),
    decreases n,
{
    let p = visit_parts(sel, n.parts@);
    assert(visit_node(sel, n).errors == own_errors(n) + p.errors);
    assert(own_errors(n).len() == 0);
    assert(p.errors.len() == 0);
    selection_kept_plain(sel, n);
    assert(decreases_to!(n => n.parts));
    assert(decreases_to!(n.parts => n.parts@));
    parts_keep_plain(sel, n.parts@);
    let own = seq![KeptView { at: n.at, attrs: member_selection(sel, n).kept }];
    assert(kept_within(own, plain_attr_tags(n.attrs@))) by {
        assert forall|m: int, j: int|
            0 <= m < own.len() && 0 <= j < own[m].attrs.len() implies plain_attr_tags(
                n.attrs@,
            ).contains(#[trigger] own[m].attrs[j]) by {
            assert(own[m] == own[0]);
        }
    }
    kept_within_grows(own, plain_attr_tags(n.attrs@), node_plain_tags(n));
    kept_within_grows(p.kept, parts_plain_tags(n.parts@), node_plain_tags(n));
    kept_within_concat(own, p.kept, node_plain_tags(n));
}

proof fn parts_keep_plain(sel: Selection, parts: Seq<Part>)
    requires
        visit_parts(sel, parts).errors.len() == 0,
    ensures
        kept_within(visit_parts(sel, parts).kept, parts_plain_tags(parts)),
    decreases parts,
{
    if parts.len() > 0 {
        let prev = visit_parts(sel, parts.drop_last());
        let all = parts_plain_tags(parts);
        assert(decreases_to!(parts => parts.drop_last()));
        match parts.last() {
            Part::Inspect(a) => {
                assert(visit_parts(sel, parts).errors == prev.errors + inspect_errors(seq![a], false));
                parts_keep_plain(sel, parts.drop_last());
                kept_within_grows(prev.kept, parts_plain_tags(parts.drop_last()), all);
                assert(visit_parts(sel, parts).kept =~= prev.kept + Seq::<KeptView>::empty());
                kept_within_concat(prev.kept, Seq::<KeptView>::empty(), all);
            },
            Part::Nested { between, members } => {
                let b = visit_parts(sel, between@);
                let m = visit_members(sel, members@);
                assert(visit_parts(sel, parts).errors == prev.errors + (selection_errors(
                    sel,
                    members@,
                ) + b.errors + m.errors));
                parts_keep_plain(sel, parts.drop_last());
                assert(decreases_to!(parts => parts.last()));
                assert(decreases_to!(parts.last() => between));
                assert(decreases_to!(between => between@));
                assert(decreases_to!(parts.last() => members));
                assert(decreases_to!(members => members@));
                parts_keep_plain(sel, between@);
                members_keep_plain(sel, members@);
                kept_within_grows(prev.kept, parts_plain_tags(parts.drop_last()), all);
                kept_within_grows(b.kept, parts_plain_tags(between@), all);
                kept_within_grows(m.kept, members_plain_tags(members@), all);
                kept_within_concat(b.kept, m.kept, all);
                kept_within_concat(prev.kept, b.kept + m.kept, all);
                assert(visit_parts(sel, parts).kept == prev.kept + (b.kept + m.kept));
            },
        }
    }
}

proof fn members_keep_plain(sel: Selection, nodes: Seq<Node>)
    requires
        selection_errors(sel, nodes).len() == 0,
        visit_members(sel, nodes).errors.len() == 0,
    ensures
        kept_within(visit_members(sel, nodes).kept, members_plain_tags(nodes)),
    decreases nodes,
{
    if nodes.len() > 0 {
        let prev = visit_members(sel, nodes.drop_last());
        let all = members_plain_tags(nodes);
        assert(selection_errors(sel, nodes) == selection_errors(sel, nodes.drop_last())
            + member_selection(sel, nodes.last()).errors);
        assert(decreases_to!(nodes => nodes.drop_last()));
        if member_selection(sel, nodes.last()).enabled {
            let v = visit_node(sel, nodes.last());
            assert(visit_members(sel, nodes).errors == prev.errors + v.errors);
            members_keep_plain(sel, nodes.drop_last());
            assert(decreases_to!(nodes => nodes.last()));
            node_keeps_plain(sel, nodes.last());
            kept_within_grows(prev.kept, members_plain_tags(nodes.drop_last()), all);
            kept_within_grows(v.kept, node_plain_tags(nodes.last()), all);
            kept_within_concat(prev.kept, v.kept, all);
        } else {
            members_keep_plain(sel, nodes.drop_last());
            kept_within_grows(prev.kept, members_plain_tags(nodes.drop_last()), all);
        }
    }
}

/// A successful reduction keeps no conditional attribute: every attribute
/// a surviving element keeps is a plain attribute of the module body (a
/// `cfg` that held is not copied on, and any `cfg_attr` or misplaced `cfg`
/// would have failed the reduction).
pub proof fn successful_reduction_keeps_only_plain_attributes(
    chip: Seq<char>,
    system: Option<Seq<char>>,
    software: Seq<String>,
    module: AppModule,
)
    ensures
        reduce_result(chip, system, software, module) matches Ok(kept) ==> module.content matches Some(
            nodes,
        ) && kept_within(kept, members_plain_tags(nodes@)),
{
    if let Some(nodes) = module.content {
        let sel = selection_for(chip, system, software);
        let r = reduce_list(sel, nodes@);
        if r.errors.len() == 0 {
            members_keep_plain(sel, nodes@);
        }
    }
}

/// The errors an element of a list raises: its selection's, then, when it
/// survives, those of its own attributes.
pub open spec fn element_errors(sel: Selection, node: Node) -> Seq<ReduceError> {
    let s = member_selection(sel, node);
    if s.enabled {
        s.errors + own_errors(node)
    } else {
        s.errors
    }
}

proof fn selection_errors_include(sel: Selection, nodes: Seq<Node>, i: int)
    requires
        0 <= i < nodes.len(),
    ensures
        selection_errors(sel, nodes).len() >= member_selection(sel, nodes[i]).errors.len(),
    decreases nodes.len(),
{
    if i < nodes.len() - 1 {
        selection_errors_include(sel, nodes.drop_last(), i);
        assert(nodes.drop_last()[i] == nodes[i]);
    }
}

proof fn visited_errors_include(sel: Selection, nodes: Seq<Node>, i: int)
    requires
        0 <= i < nodes.len(),
        member_selection(sel, nodes[i]).enabled,
    ensures
        visit_members(sel, nodes).errors.len() >= own_errors(nodes[i]).len(),
    decreases nodes.len(),
{
    if i < nodes.len() - 1 {
        visited_errors_include(sel, nodes.drop_last(), i);
        assert(nodes.drop_last()[i] == nodes[i]);
    } else {
        let v = visit_node(sel, nodes.last());
        assert(v.errors == own_errors(nodes.last()) + visit_parts(sel, nodes.last().parts@).errors);
    }
}

/// Reduction fails closed: when an element at the top of the module body
/// carries conditional syntax that cannot be decided (a predicate that does
/// not evaluate, a `cfg_attr`, or a `cfg` where nothing can be gated), the
/// reduction is refused rather than silently dropping or keeping code.
pub proof fn undecidable_top_level_syntax_is_refused(
    chip: Seq<char>,
    system: Option<Seq<char>>,
    software: Seq<String>,
    module: AppModule,
    i: int,
)
    requires
        module.content matches Some(nodes) && 0 <= i < nodes@.len() && element_errors(
            selection_for(chip, system, software),
            nodes@[i],
        ).len() > 0,
    ensures
        reduce_result(chip, system, software, module) is Err,
{
    let nodes = module.content.unwrap();
    let sel = selection_for(chip, system, software);
    selection_errors_include(sel, nodes@, i);
    if member_selection(sel, nodes@[i]).enabled {
        visited_errors_include(sel, nodes@, i);
    }
}

proof fn removed_member_not_read_members(sel: Selection, nodes: Seq<Node>, i: int, other: Node)
    requires
        0 <= i < nodes.len(),
        !member_selection(sel, nodes[i]).enabled,
        other.at == nodes[i].at,
        other.position == nodes[i].position,
        other.attrs@ == nodes[i].attrs@,
    ensures
        selection_errors(sel, nodes.update(i, other)) == selection_errors(sel, nodes),
        visit_members(sel, nodes.update(i, other)) == visit_members(sel, nodes),
    decreases nodes.len(),
{
    let u = nodes.update(i, other);
    assert(member_selection(sel, other) == member_selection(sel, nodes[i]));
    if i == nodes.len() - 1 {
        assert(u.drop_last() =~= nodes.drop_last());
    } else {
        removed_member_not_read_members(sel, nodes.drop_last(), i, other);
        assert(u.drop_last() =~= nodes.drop_last().update(i, other));
        assert(u.last() == nodes.last());
    }
}

/// Removing an element removes everything in it, unread: when selection
/// disables a member of a list, whatever it holds (its parts and the lists
/// nested in them) has no effect on the reduction, neither on what is kept
/// nor on what is refused.
pub proof fn removed_element_is_not_read(sel: Selection, nodes: Seq<Node>, i: int, other: Node)
    requires
        0 <= i < nodes.len(),
        !member_selection(sel, nodes[i]).enabled,
        other.at == nodes[i].at,
        other.position == nodes[i].position,
        other.attrs@ == nodes[i].attrs@,
    ensures
        reduce_list(sel, nodes.update(i, other)) == reduce_list(sel, nodes),
{
    removed_member_not_read_members(sel, nodes, i, other);
}

/// Whether every attribute of a list of elements, anywhere in it, is plain.
pub open spec fn members_all_plain(nodes: Seq<Node>) -> bool
    decreases nodes,
{
    nodes.len() == 0 || (members_all_plain(nodes.drop_last()) && node_all_plain(nodes.last()))
}

/// Whether every attribute of an element, anywhere in it, is plain.
pub open spec fn node_all_plain(n: Node) -> bool
    decreases n,
{
    (forall|k: int| 0 <= k < n.attrs@.len() ==> #[trigger] n.attrs@[k] is Other) && parts_all_plain(
        n.parts@,
    )
}

/// Whether every attribute of an element's parts, anywhere in them, is
/// plain.
pub open spec fn parts_all_plain(parts: Seq<Part>) -> bool
    decreases parts,
{
    parts.len() == 0 || (parts_all_plain(parts.drop_last()) && match parts.last() {
        Part::Inspect(a) => a is Other,
        Part::Nested { between, members } => parts_all_plain(between@) && members_all_plain(
            members@,
        ),
    })
}

/// Every element of a list, in reading order, with all its attributes.
pub open spec fn members_whole(nodes: Seq<Node>) -> Seq<KeptView>
    decreases nodes,
{
    if nodes.len() == 0 {
        Seq::empty()
    } else {
        members_whole(nodes.drop_last()) + node_whole(nodes.last())
    }
}

/// An element and everything in it, in reading order, with all their
/// attributes.
pub open spec fn node_whole(n: Node) -> Seq<KeptView>
    decreases n,
{
    seq![KeptView { at: n.at, attrs: attr_tags(n.attrs@) }] + parts_whole(n.parts@)
}

/// Every element in an element's parts, in reading order, with all their
/// attributes.
pub open spec fn parts_whole(parts: Seq<Part>) -> Seq<KeptView>
    decreases parts,
{
    if parts.len() == 0 {
        Seq::empty()
    } else {
        parts_whole(parts.drop_last()) + match parts.last() {
            Part::Inspect(_) => Seq::empty(),
            Part::Nested { between, members } => parts_whole(between@) + members_whole(members@),
        }
    }
}

/// Plain attributes are selected, all kept, and raise nothing.
proof fn plain_attributes_pass(sel: Selection, attrs: Seq<Attr>)
    requires
        forall|k: int| 0 <= k < attrs.len() ==> #[trigger] attrs[k] is Other,
    ensures
        select_attrs(sel, attrs).enabled,
        select_attrs(sel, attrs).kept == attr_tags(attrs),
        select_attrs(sel, attrs).errors.len() == 0,
        inspect_errors(attrs, false).len() == 0,
        inspect_errors(attrs, true).len() == 0,
    decreases attrs.len(),
{
    if attrs.len() > 0 {
        let prev = attrs.drop_last();
        assert forall|k: int| 0 <= k < prev.len() implies #[trigger] prev[k] is Other by {
            assert(prev[k] == attrs[k]);
        }
        plain_attributes_pass(sel, prev);
        assert(attrs[attrs.len() - 1] is Other);
        assert(attr_tags(attrs) =~= attr_tags(prev).push(attr_at(attrs.last())));
    }
}

proof fn plain_node_kept_whole(sel: Selection, n: Node)
    requires
        node_all_plain(n),
    ensures
        member_selection(sel, n).enabled,
        member_selection(sel, n).errors.len() == 0,
        visit_node(sel, n).errors.len() == 0,
        visit_node(sel, n).kept == node_whole(n),
    decreases n,
{
    plain_attributes_pass(sel, n.attrs@);
    assert(decreases_to!(n => n.parts));
    assert(decreases_to!(n.parts => n.parts@));
    plain_parts_kept_whole(sel, n.parts@);
    assert(own_errors(n).len() == 0);
}

proof fn plain_parts_kept_whole(sel: Selection, parts: Seq<Part>)
    requires
        parts_all_plain(parts),
    ensures
        visit_parts(sel, parts).errors.len() == 0,
        visit_parts(sel, parts).kept == parts_whole(parts),
    decreases parts,
{
    if parts.len() > 0 {
        assert(decreases_to!(parts => parts.drop_last()));
        plain_parts_kept_whole(sel, parts.drop_last());
        let prev = visit_parts(sel, parts.drop_last());
        match parts.last() {
            Part::Inspect(a) => {
                super::model::inspect_single(a);
                assert(visit_parts(sel, parts).kept =~= parts_whole(parts));
            },
            Part::Nested { between, members } => {
                assert(decreases_to!(parts => parts.last()));
                assert(decreases_to!(parts.last() => between));
                assert(decreases_to!(between => between@));
                assert(decreases_to!(parts.last() => members));
                assert(decreases_to!(members => members@));
                plain_parts_kept_whole(sel, between@);
                plain_members_kept_whole(sel, members@);
                assert(visit_parts(sel, parts).kept =~= parts_whole(parts));
            },
        }
    }
}

proof fn plain_members_kept_whole(sel: Selection, nodes: Seq<Node>)
    requires
        members_all_plain(nodes),
    ensures
        selection_errors(sel, nodes).len() == 0,
        visit_members(sel, nodes).errors.len() == 0,
        visit_members(sel, nodes).kept == members_whole(nodes),
    decreases nodes,
{
    if nodes.len() > 0 {
        assert(decreases_to!(nodes => nodes.drop_last()));
        plain_members_kept_whole(sel, nodes.drop_last());
        assert(decreases_to!(nodes => nodes.last()));
        plain_node_kept_whole(sel, nodes.last());
    }
}

/// A body whose attributes are all plain is reduced to itself: every
/// element survives, in reading order, with all its attributes, and nothing
/// is refused.
pub proof fn plain_body_is_kept_whole(
    chip: Seq<char>,
    system: Option<Seq<char>>,
    software: Seq<String>,
    module: AppModule,
)
    requires
        chip_for_feature(chip) is Some,
        system matches Some(s) ==> system_for_feature(s) matches Some(v) && chip_feature(
            system_chip(v),
        ) == chip,
        software_registered(software),
        module.content matches Some(nodes) && members_all_plain(nodes@),
    ensures
        reduce_result(chip, system, software, module) == Ok::<Seq<KeptView>, Seq<ReduceError>>(
            members_whole(module.content.unwrap()@),
        ),
{
    let nodes = module.content.unwrap();
    plain_members_kept_whole(selection_for(chip, system, software), nodes@);
}


/// An element's attributes without its `cfg`s.
pub open spec fn ungated(attrs: Seq<Attr>) -> Seq<Attr>
    decreases attrs.len(),
{
    if attrs.len() == 0 {
        Seq::empty()
    } else if attrs.last() is Cfg {
        ungated(attrs.drop_last())
    } else {
        ungated(attrs.drop_last()).push(attrs.last())
    }
}

/// Whether `red` is the list of elements that a reduction of `orig` keeps:
/// the surviving members, in order, each as the reduction keeps it.
pub open spec fn reduced_members(sel: Selection, orig: Seq<Node>, red: Seq<Node>) -> bool
    decreases orig,
{
    if orig.len() == 0 {
        red.len() == 0
    } else if member_selection(sel, orig.last()).enabled {
        red.len() > 0 && reduced_members(sel, orig.drop_last(), red.drop_last()) && reduced_node(
            sel,
            orig.last(),
            red.last(),
        )
    } else {
        reduced_members(sel, orig.drop_last(), red)
    }
}

/// Whether `red` is the element `orig` as a reduction keeps it: the same
/// tag and position, its attributes without the `cfg`s (all of them for a
/// fixed member), and its parts reduced.
pub open spec fn reduced_node(sel: Selection, orig: Node, red: Node) -> bool
    decreases orig,
{
    &&& red.at == orig.at
    &&& red.position == orig.position
    &&& red.attrs@ == (if orig.position == Position::Fixed {
        orig.attrs@
    } else {
        ungated(orig.attrs@)
    })
    &&& reduced_parts(sel, orig.parts@, red.parts@)
}

/// Whether `red` is the parts `orig` as a reduction keeps them.
pub open spec fn reduced_parts(sel: Selection, orig: Seq<Part>, red: Seq<Part>) -> bool
    decreases orig,
{
    &&& orig.len() == red.len()
    &&& (orig.len() == 0 || (reduced_parts(sel, orig.drop_last(), red.drop_last()) && match (
        orig.last(),
        red.last(),
    ) {
        (Part::Inspect(a), Part::Inspect(b)) => a == b,
        (
            Part::Nested { between: b1, members: m1 },
            Part::Nested { between: b2, members: m2 },
        ) => reduced_parts(sel, b1@, b2@) && reduced_members(sel, m1@, m2@),
        _ => false,
    }))
}

/// A clean selection keeps exactly the tags of the attributes other than
/// `cfg`, and all of those are plain.
proof fn clean_selection_keeps_ungated(sel: Selection, attrs: Seq<Attr>)
    requires
        select_attrs(sel, attrs).errors.len() == 0,
    ensures
        select_attrs(sel, attrs).kept == attr_tags(ungated(attrs)),
        forall|k: int| 0 <= k < ungated(attrs).len() ==> #[trigger] ungated(attrs)[k] is Other,
    decreases attrs.len(),
{
    if attrs.len() > 0 {
        let prev = attrs.drop_last();
        assert(select_attrs(sel, prev).errors.len() <= select_attrs(sel, attrs).errors.len());
        clean_selection_keeps_ungated(sel, prev);
        let u = ungated(prev);
        match attrs.last() {
            Attr::Cfg { .. } => {},
            Attr::CfgAttr { .. } => {},
            Attr::Other { at } => {
                assert(attr_tags(u.push(attrs.last())) =~= attr_tags(u).push(at));
                assert forall|k: int| 0 <= k < u.push(attrs.last()).len() implies #[trigger] u.push(
                    attrs.last(),
                )[k] is Other by {
                    if k < u.len() {
                        assert(u.push(attrs.last())[k] == u[k]);
                    }
                }
            },
        }
    }
}

proof fn reduced_node_kept_whole(sel: Selection, orig: Node, red: Node)
    requires
        member_selection(sel, orig).enabled,
        member_selection(sel, orig).errors.len() == 0,
        visit_node(sel, orig).errors.len() == 0,
        reduced_node(sel, orig, red),
    ensures
        node_all_plain(red),
        node_whole(red) == visit_node(sel, orig).kept,
    decreases orig,
{
    let p = visit_parts(sel, orig.parts@);
    assert(visit_node(sel, orig).errors == own_errors(orig) + p.errors);
    if orig.position == Position::Fixed {
        inspection_clean_means_plain(orig.attrs@);
    } else {
        clean_selection_keeps_ungated(sel, orig.attrs@);
    }
    assert(decreases_to!(orig => orig.parts));
    assert(decreases_to!(orig.parts => orig.parts@));
    reduced_parts_kept_whole(sel, orig.parts@, red.parts@);
    assert(node_whole(red) =~= visit_node(sel, orig).kept);
}

proof fn reduced_parts_kept_whole(sel: Selection, orig: Seq<Part>, red: Seq<Part>)
    requires
        visit_parts(sel, orig).errors.len() == 0,
        reduced_parts(sel, orig, red),
    ensures
        parts_all_plain(red),
        parts_whole(red) == visit_parts(sel, orig).kept,
    decreases orig,
{
    if orig.len() > 0 {
        let prev = visit_parts(sel, orig.drop_last());
        assert(decreases_to!(orig => orig.drop_last()));
        match orig.last() {
            Part::Inspect(a) => {
                super::model::inspect_single(a);
                assert(visit_parts(sel, orig).errors == prev.errors + inspect_errors(seq![a], false));
                reduced_parts_kept_whole(sel, orig.drop_last(), red.drop_last());
                assert(parts_whole(red) =~= visit_parts(sel, orig).kept);
            },
            Part::Nested { between, members } => {
                let b = visit_parts(sel, between@);
                let m = visit_members(sel, members@);
                assert(visit_parts(sel, orig).errors == prev.errors + (selection_errors(
                    sel,
                    members@,
                ) + b.errors + m.errors));
                reduced_parts_kept_whole(sel, orig.drop_last(), red.drop_last());
                assert(decreases_to!(orig => orig.last()));
                assert(decreases_to!(orig.last() => between));
                assert(decreases_to!(between => between@));
                assert(decreases_to!(orig.last() => members));
                assert(decreases_to!(members => members@));
                match red.last() {
                    Part::Nested { between: b2, members: m2 } => {
                        reduced_parts_kept_whole(sel, between@, b2@);
                        reduced_members_kept_whole(sel, members@, m2@);
                    },
                    _ => {},
                }
                assert(parts_whole(red) =~= visit_parts(sel, orig).kept);
            },
        }
    }
}

proof fn reduced_members_kept_whole(sel: Selection, orig: Seq<Node>, red: Seq<Node>)
    requires
        selection_errors(sel, orig).len() == 0,
        visit_members(sel, orig).errors.len() == 0,
        reduced_members(sel, orig, red),
    ensures
        members_all_plain(red),
        members_whole(red) == visit_members(sel, orig).kept,
    decreases orig,
{
    if orig.len() > 0 {
        let prev = visit_members(sel, orig.drop_last());
        assert(selection_errors(sel, orig) == selection_errors(sel, orig.drop_last())
            + member_selection(sel, orig.last()).errors);
        assert(decreases_to!(orig => orig.drop_last()));
        if member_selection(sel, orig.last()).enabled {
            let v = visit_node(sel, orig.last());
            assert(visit_members(sel, orig).errors == prev.errors + v.errors);
            reduced_members_kept_whole(sel, orig.drop_last(), red.drop_last());
            assert(decreases_to!(orig => orig.last()));
            reduced_node_kept_whole(sel, orig.last(), red.last());
        } else {
            reduced_members_kept_whole(sel, orig.drop_last(), red);
        }
    }
}

/// Reduction is idempotent: reducing again what a successful reduction
/// kept (the surviving elements, each without its `cfg`s) succeeds and
/// keeps it all, with the same attributes.
pub proof fn reduction_is_idempotent(
    chip: Seq<char>,
    system: Option<Seq<char>>,
    software: Seq<String>,
    module: AppModule,
    again: AppModule,
)
    requires
        reduce_result(chip, system, software, module) is Ok,
        module.content matches Some(nodes) && again.content matches Some(red) && reduced_members(
            selection_for(chip, system, software),
            nodes@,
            red@,
        ),
    ensures
        reduce_result(chip, system, software, again) == reduce_result(chip, system, software, module),
{
    let sel = selection_for(chip, system, software);
    let nodes = module.content.unwrap();
    let red = again.content.unwrap();
    reduced_members_kept_whole(sel, nodes@, red@);
    plain_members_kept_whole(sel, red@);
}


/// Whether some `cfg` among the attributes evaluates to false.
pub open spec fn some_cfg_false(sel: Selection, attrs: Seq<Attr>) -> bool {
    exists|k: int|
        0 <= k < attrs.len() && #[trigger] attrs[k] is Cfg && eval_predicate(sel, attrs[k]->predicate)
            == Ok::<bool, ReduceError>(false)
}

/// An element is selected only if every `cfg` on it holds: one `cfg` that
/// evaluates to false removes it, whatever the others say, and without
/// such a `cfg` it is selected. A `cfg` is never kept, and every other
/// attribute is kept in order.
pub proof fn selection_needs_every_cfg(sel: Selection, attrs: Seq<Attr>)
    ensures
        select_attrs(sel, attrs).enabled == !some_cfg_false(sel, attrs),
        select_attrs(sel, attrs).kept == attr_tags(ungated(attrs)),
    decreases attrs.len(),
{
    if attrs.len() > 0 {
        let prev = attrs.drop_last();
        selection_needs_every_cfg(sel, prev);
        let last = attrs.last();
        if some_cfg_false(sel, prev) {
            let k = choose|k: int|
                0 <= k < prev.len() && #[trigger] prev[k] is Cfg && eval_predicate(
                    sel,
                    prev[k]->predicate,
                ) == Ok::<bool, ReduceError>(false);
            assert(attrs[k] == prev[k]);
        }
        if some_cfg_false(sel, attrs) {
            let k = choose|k: int|
                0 <= k < attrs.len() && #[trigger] attrs[k] is Cfg && eval_predicate(
                    sel,
                    attrs[k]->predicate,
                ) == Ok::<bool, ReduceError>(false);
            if k < prev.len() {
                assert(prev[k] == attrs[k]);
            }
        }
        if last is Cfg && eval_predicate(sel, last->predicate) == Ok::<bool, ReduceError>(false) {
            assert(attrs[attrs.len() - 1] == last);
        }
        match last {
            Attr::Other { at } => {
                assert(attr_tags(ungated(prev).push(last)) =~= attr_tags(ungated(prev)).push(at));
            },
            Attr::CfgAttr { at } => {
                assert(attr_tags(ungated(prev).push(last)) =~= attr_tags(ungated(prev)).push(at));
            },
            Attr::Cfg { .. } => {},
        }
    }
}


proof fn all_hold_means_each(features: Seq<String>, ps: Seq<FeaturePredicate>)
    ensures
        all_hold(features, ps) <==> forall|i: int| 0 <= i < ps.len() ==> feature_holds(features, #[trigger] ps[i]),
        any_holds(features, ps) <==> exists|i: int| 0 <= i < ps.len() && feature_holds(features, #[trigger] ps[i]),
    decreases ps.len(),
{
    if ps.len() > 0 {
        let prev = ps.drop_last();
        all_hold_means_each(features, prev);
        assert forall|i: int| 0 <= i < prev.len() implies prev[i] == ps[i] by {}
        assert(ps[ps.len() - 1] == ps.last());
        if exists|i: int| 0 <= i < ps.len() && feature_holds(features, #[trigger] ps[i]) {
            let i = choose|i: int| 0 <= i < ps.len() && feature_holds(features, #[trigger] ps[i]);
            if i < prev.len() {
                assert(feature_holds(features, prev[i]));
            }
        }
        if exists|i: int| 0 <= i < prev.len() && feature_holds(features, #[trigger] prev[i]) {
            let i = choose|i: int| 0 <= i < prev.len() && feature_holds(features, #[trigger] prev[i]);
            assert(feature_holds(features, ps[i]));
        }
    }
}

/// What a `cfg` predicate means to feature reduction: a feature holds when
/// it is enabled; `all` holds when every operand holds; `any` when some
/// operand holds; `not` when its first operand does not hold; a predicate
/// whose arguments do not parse, and any other predicate, never holds.
pub proof fn feature_predicate_meaning(features: Seq<String>, p: FeaturePredicate)
    ensures
        p matches FeaturePredicate::Feature(name) ==> (feature_holds(features, p) <==> exists|k: int|
            0 <= k < features.len() && #[trigger] features[k]@ == name@),
        p matches FeaturePredicate::All(Some(args)) ==> (feature_holds(features, p) <==> forall|i: int|
            0 <= i < args@.len() ==> feature_holds(features, #[trigger] args@[i])),
        p matches FeaturePredicate::Any(Some(args)) ==> (feature_holds(features, p) <==> exists|i: int|
            0 <= i < args@.len() && feature_holds(features, #[trigger] args@[i])),
        p matches FeaturePredicate::Not(Some(args)) ==> (feature_holds(features, p) <==> args@.len()
            > 0 && !feature_holds(features, args@[0])),
        (p matches FeaturePredicate::All(None) || p matches FeaturePredicate::Any(None)
            || p matches FeaturePredicate::Not(None) || p is Other) ==> !feature_holds(features, p),
{
    match p {
        FeaturePredicate::All(Some(args)) => all_hold_means_each(features, args@),
        FeaturePredicate::Any(Some(args)) => all_hold_means_each(features, args@),
        _ => {},
    }
}

/// Feature reduction keeps an element exactly when every `cfg` on it holds,
/// and a `cfg` holds by its first predicate, or always when it has no
/// readable predicate.
pub proof fn feature_selection_needs_every_cfg(features: Seq<String>, attrs: Seq<FeatureAttr>)
    ensures
        attrs_hold(features, attrs) <==> forall|k: int|
            0 <= k < attrs.len() && #[trigger] attrs[k] is Cfg ==> match attrs[k]->args {
                Some(ps) => ps@.len() == 0 || feature_holds(features, ps@[0]),
                None => true,
            },
    decreases attrs.len(),
{
    if attrs.len() > 0 {
        let prev = attrs.drop_last();
        feature_selection_needs_every_cfg(features, prev);
        assert forall|k: int| 0 <= k < prev.len() implies prev[k] == attrs[k] by {}
        assert(attrs[attrs.len() - 1] == attrs.last());
    }
}


/// What feature reduction keeps of an element's attributes: all of an
/// item's, and of a field's every attribute but its `cfg`s, in order.
pub proof fn feature_kept_attributes(position: FeaturePosition, attrs: Seq<FeatureAttr>)
    ensures
        position == FeaturePosition::Item ==> kept_tags(position, attrs) == feature_attr_tags(attrs),
        position == FeaturePosition::Field ==> kept_tags(position, attrs) == feature_attr_tags(
            attrs.filter(|a: FeatureAttr| a is Other),
        ),
    decreases attrs.len(),
{
    reveal_with_fuel(Seq::<FeatureAttr>::filter, 1);
    if attrs.len() > 0 {
        let prev = attrs.drop_last();
        feature_kept_attributes(position, prev);
        let f = |a: FeatureAttr| a is Other;
        assert(feature_attr_tags(attrs) =~= feature_attr_tags(prev).push(feature_attr_at(attrs.last())));
        if attrs.last() is Other {
            assert(feature_attr_tags(prev.filter(f).push(attrs.last())) =~= feature_attr_tags(
                prev.filter(f),
            ).push(feature_attr_at(attrs.last())));
        }
    }
}

proof fn feature_skipped_run(features: Seq<String>, nodes: Seq<FeatureNode>, k: int, j: int, d: usize)
    requires
        0 <= k <= j <= nodes.len(),
        forall|m: int| k <= m < j ==> #[trigger] nodes[m].depth > d,
        j == nodes.len() || nodes[j].depth <= d,
    ensures
        feature_reduce_from(features, nodes, k, Some(d)) == feature_reduce_from(features, nodes, j, None),
    decreases j - k,
{
    if k < j {
        feature_skipped_run(features, nodes, k + 1, j, d);
    }
}

/// Removing an element removes everything nested in it: when an element's
/// `cfg`s do not all hold, feature reduction goes on after its subtree (the
/// run of deeper elements that follows it) as if that were absent.
pub proof fn feature_removed_element_takes_its_subtree(
    features: Seq<String>,
    nodes: Seq<FeatureNode>,
    i: int,
    j: int,
)
    requires
        0 <= i < j <= nodes.len(),
        !attrs_hold(features, nodes[i].attrs@),
        forall|m: int| i < m < j ==> #[trigger] nodes[m].depth > nodes[i].depth,
        j == nodes.len() || nodes[j].depth <= nodes[i].depth,
    ensures
        feature_reduce_from(features, nodes, i, None) == feature_reduce_from(features, nodes, j, None),
{
    feature_skipped_run(features, nodes, i + 1, j, nodes[i].depth);
}


/// The position error raised for an attribute.
pub open spec fn position_error(a: Attr) -> ReduceError {
    ReduceError { kind: ReduceErrorKind::CfgPosition, at: attr_at(a) }
}

/// Inspecting attributes where nothing can be gated raises one error per
/// `cfg` and `cfg_attr`, in order; once an element's `cfg`s are removed by
/// selection, one per `cfg_attr` only. Plain attributes raise nothing.
pub proof fn inspection_flags_conditional_syntax(attrs: Seq<Attr>)
    ensures
        inspect_errors(attrs, false) == attrs.filter(|a: Attr| !(a is Other)).map_values(
            |a: Attr| position_error(a),
        ),
        inspect_errors(attrs, true) == attrs.filter(|a: Attr| a is CfgAttr).map_values(
            |a: Attr| position_error(a),
        ),
    decreases attrs.len(),
{
    reveal_with_fuel(Seq::<Attr>::filter, 1);
    if attrs.len() > 0 {
        let prev = attrs.drop_last();
        inspection_flags_conditional_syntax(prev);
        let f1 = |a: Attr| !(a is Other);
        let f2 = |a: Attr| a is CfgAttr;
        let g = |a: Attr| position_error(a);
        let last = attrs.last();
        if f1(last) {
            assert(prev.filter(f1).push(last).map_values(g) =~= prev.filter(f1).map_values(g).push(
                g(last),
            ));
        }
        if f2(last) {
            assert(prev.filter(f2).push(last).map_values(g) =~= prev.filter(f2).map_values(g).push(
                g(last),
            ));
        }
    }
}

} // verus!
