//! Reduction of a text-composed application body by the build's enabled
//! Cargo features. Unlike chip reduction it is lenient: a predicate it
//! cannot read is simply not enabled, nothing is refused, and only the
//! body's own items and the fields of structs and struct expressions are
//! selected.

use vstd::prelude::*;

use super::model::{KeptNode, KeptView};
use super::kept_views;
use crate::firmware::selection::{enabled, is_enabled};

verus! {

/// A `cfg` predicate as feature reduction reads it.
pub enum FeaturePredicate {
    /// `feature = "name"`.
    Feature(String),
    /// `all(..)`; `None` where the arguments do not parse as predicates.
    All(Option<Vec<FeaturePredicate>>),
    /// `any(..)`; `None` where the arguments do not parse as predicates.
    Any(Option<Vec<FeaturePredicate>>),
    /// `not(..)`; `None` where the arguments do not parse as predicates.
    Not(Option<Vec<FeaturePredicate>>),
    /// Any other predicate: another key, a non-string value, another list.
    Other,
}

/// An attribute as feature reduction reads it.
pub enum FeatureAttr {
    /// `#[cfg(..)]`, with its comma-separated predicates; `None` where the
    /// attribute has no parenthesized list or the list does not parse.
    Cfg { at: u64, args: Option<Vec<FeaturePredicate>> },
    /// Any other attribute.
    Other { at: u64 },
}

/// What kind of element feature reduction selects.
#[derive(Clone, Copy, Debug, PartialEq, Eq, Structural)]
pub enum FeaturePosition {
    /// An item of the body: removed when one of its `cfg`s does not hold,
    /// otherwise kept with all its attributes.
    Item,
    /// A field of a struct or of a struct expression: removed when one of
    /// its `cfg`s does not hold, otherwise kept without its `cfg`s.
    Field,
}

/// One element of a body, in preorder with its nesting depth (its subtree
/// is the run of following elements that are deeper).
pub struct FeatureNode {
    pub at: u64,
    pub position: FeaturePosition,
    pub depth: usize,
    pub attrs: Vec<FeatureAttr>,
}

/// Whether a predicate holds for the enabled features: a feature holds when
/// it is enabled; `all`, `any` and `not` over arguments that do not parse
/// do not hold; `not` negates its first operand and does not hold without
/// one; any other predicate does not hold.
pub open spec fn feature_holds(features: Seq<String>, p: FeaturePredicate) -> bool
    decreases p,
{
    match p {
        FeaturePredicate::Feature(name) => enabled(features, name@),
        FeaturePredicate::All(Some(args)) => all_hold(features, args@),
        FeaturePredicate::Any(Some(args)) => any_holds(features, args@),
        FeaturePredicate::Not(Some(args)) => args@.len() > 0 && !feature_holds(features, args@[0]),
        _ => false,
    }
}

/// Whether every predicate of a list holds.
pub open spec fn all_hold(features: Seq<String>, ps: Seq<FeaturePredicate>) -> bool
    decreases ps,
{
    if ps.len() == 0 {
        true
    } else {
        all_hold(features, ps.drop_last()) && feature_holds(features, ps.last())
    }
}

/// Whether some predicate of a list holds.
pub open spec fn any_holds(features: Seq<String>, ps: Seq<FeaturePredicate>) -> bool
    decreases ps,
{
    if ps.len() == 0 {
        false
    } else {
        any_holds(features, ps.drop_last()) || feature_holds(features, ps.last())
    }
}

/// Whether a `cfg` attribute holds: by its first predicate; one without a
/// readable list, or with an empty one, holds.
pub open spec fn cfg_holds(features: Seq<String>, args: Option<Vec<FeaturePredicate>>) -> bool {
    match args {
        Some(ps) => ps@.len() == 0 || feature_holds(features, ps@[0]),
        None => true,
    }
}

/// Whether every `cfg` among the attributes holds.
pub open spec fn attrs_hold(features: Seq<String>, attrs: Seq<FeatureAttr>) -> bool
    decreases attrs.len(),
{
    if attrs.len() == 0 {
        true
    } else {
        attrs_hold(features, attrs.drop_last()) && match attrs.last() {
            FeatureAttr::Cfg { args, .. } => cfg_holds(features, args),
            FeatureAttr::Other { .. } => true,
        }
    }
}

/// The tag of an attribute.
pub open spec fn feature_attr_at(a: FeatureAttr) -> u64 {
    match a {
        FeatureAttr::Cfg { at, .. } => at,
        FeatureAttr::Other { at } => at,
    }
}

/// The tags of the attributes an element keeps: all of an item's, the
/// non-`cfg` ones of a field's.
pub open spec fn kept_tags(position: FeaturePosition, attrs: Seq<FeatureAttr>) -> Seq<u64>
    decreases attrs.len(),
{
    if attrs.len() == 0 {
        Seq::empty()
    } else {
        let prev = kept_tags(position, attrs.drop_last());
        if position == FeaturePosition::Field && attrs.last() is Cfg {
            prev
        } else {
            prev.push(feature_attr_at(attrs.last()))
        }
    }
}

/// Reduces the elements from index `i` on; `skip` holds the depth of a
/// removed element while its subtree is passed over. An element whose
/// `cfg`s all hold is kept with the attributes `kept_tags` gives; any other
/// is removed with its subtree.
pub open spec fn feature_reduce_from(
    features: Seq<String>,
    nodes: Seq<FeatureNode>,
    i: int,
    skip: Option<usize>,
) -> Seq<KeptView>
    decreases nodes.len() - i,
{
    if i < 0 || i >= nodes.len() {
        Seq::empty()
    } else if skip matches Some(d) && nodes[i].depth > d {
        feature_reduce_from(features, nodes, i + 1, skip)
    } else {
        let node = nodes[i];
        if attrs_hold(features, node.attrs@) {
            seq![KeptView { at: node.at, attrs: kept_tags(node.position, node.attrs@) }]
                + feature_reduce_from(features, nodes, i + 1, None)
        } else {
            feature_reduce_from(features, nodes, i + 1, Some(node.depth))
        }
    }
}

/// Whether a predicate holds for the enabled features.
fn holds(features: &Vec<String>, p: &FeaturePredicate) -> (value: bool)
    ensures
        value == feature_holds(features@, *p),
    decreases p,
{
    match p {
        FeaturePredicate::Feature(name) => is_enabled(features, name.as_str()),
        FeaturePredicate::All(Some(args)) | FeaturePredicate::Any(Some(args)) => {
            let is_all = match p {
                FeaturePredicate::All(_) => true,
                _ => false,
            };
            let n = args.len();
            let mut all = true;
            let mut any = false;
            let mut i: usize = 0;
            while i < n
                invariant
                    n == args@.len(),
                    i <= n,
                    all == all_hold(features@, args@.take(i as int)),
                    any == any_holds(features@, args@.take(i as int)),
                    is_all ==> *p == FeaturePredicate::All(Some(*args)),
                    !is_all ==> *p == FeaturePredicate::Any(Some(*args)),
                decreases n - i,
            {
                proof {
                    assert(args@.take(i + 1).drop_last() =~= args@.take(i as int));
                    assert(args@.take(i + 1).last() == args@[i as int]);
                    if is_all {
                        assert(decreases_to!(*p => (*p)->All_0));
                        assert(decreases_to!((*p)->All_0 => (*p)->All_0->0));
                    } else {
                        assert(decreases_to!(*p => (*p)->Any_0));
                        assert(decreases_to!((*p)->Any_0 => (*p)->Any_0->0));
                    }
                    assert(decreases_to!(*args => args@));
                    assert(decreases_to!(args@ => args@[i as int]));
                }
                let v = holds(features, &args[i]);
                all = all && v;
                any = any || v;
                i = i + 1;
            }
            proof {
                assert(args@.take(n as int) =~= args@);
            }
            if is_all {
                all
            } else {
                any
            }
        },
        FeaturePredicate::Not(Some(args)) => {
            if args.len() > 0 {
                proof {
                    assert(decreases_to!(*p => (*p)->Not_0));
                    assert(decreases_to!((*p)->Not_0 => (*p)->Not_0->0));
                    assert(decreases_to!(*args => args@));
                    assert(decreases_to!(args@ => args@[0]));
                }
                !holds(features, &args[0])
            } else {
                false
            }
        },
        _ => false,
    }
}

/// Whether every `cfg` among the attributes holds, and the tags of the
/// attributes the element keeps.
fn select(features: &Vec<String>, position: FeaturePosition, attrs: &Vec<FeatureAttr>) -> (selected: (
    bool,
    Vec<u64>,
))
    ensures
        selected.0 == attrs_hold(features@, attrs@),
        selected.1@ == kept_tags(position, attrs@),
{
    let n = attrs.len();
    let mut on = true;
    let mut tags: Vec<u64> = Vec::new();
    let mut i: usize = 0;
    while i < n
        invariant
            n == attrs@.len(),
            i <= n,
            on == attrs_hold(features@, attrs@.take(i as int)),
            tags@ == kept_tags(position, attrs@.take(i as int)),
        decreases n - i,
    {
        proof {
            assert(attrs@.take(i + 1).drop_last() =~= attrs@.take(i as int));
            assert(attrs@.take(i + 1).last() == attrs@[i as int]);
        }
        match &attrs[i] {
            FeatureAttr::Cfg { at, args } => {
                let v = match args {
                    Some(ps) => if ps.len() == 0 {
                        true
                    } else {
                        holds(features, &ps[0])
                    },
                    None => true,
                };
                on = on && v;
                if position == FeaturePosition::Item {
                    tags.push(*at);
                }
            },
            FeatureAttr::Other { at } => {
                tags.push(*at);
            },
        }
        i = i + 1;
    }
    proof {
        assert(attrs@.take(n as int) =~= attrs@);
    }
    (on, tags)
}

/// Reduces a body by the enabled features: removes each element whose
/// `cfg`s do not all hold, together with everything nested in it, and
/// returns what survives with the attributes each keeps.
pub fn reduce_by_features(features: &Vec<String>, nodes: &Vec<FeatureNode>) -> (kept: Vec<
    KeptNode,
>)
    ensures
        kept_views(kept@) == feature_reduce_from(features@, nodes@, 0, None),
{
    let ghost whole = feature_reduce_from(features@, nodes@, 0, None);
    let n = nodes.len();
    let mut out: Vec<KeptNode> = Vec::new();
    let mut skip: Option<usize> = None;
    let mut i: usize = 0;
    proof {
        assert(kept_views(out@) =~= Seq::<KeptView>::empty());
        assert(whole =~= kept_views(out@) + whole);
    }
    while i < n
        invariant
            n == nodes@.len(),
            i <= n,
            whole == feature_reduce_from(features@, nodes@, 0, None),
            whole == kept_views(out@) + feature_reduce_from(features@, nodes@, i as int, skip),
        decreases n - i,
    {
        let node = &nodes[i];
        let ghost rest_before = feature_reduce_from(features@, nodes@, i as int, skip);
        let skipped = match skip {
            Some(d) => node.depth > d,
            None => false,
        };
        if !skipped {
            let ghost out_before = out@;
            let (on, tags) = select(features, node.position, &node.attrs);
            if on {
                let ghost k = KeptView { at: node.at, attrs: tags@ };
                out.push(KeptNode { at: node.at, attrs: tags });
                skip = None;
                proof {
                    let rest = feature_reduce_from(features@, nodes@, i + 1, None);
                    assert(rest_before == seq![k] + rest);
                    assert(kept_views(out@) =~= kept_views(out_before).push(k));
                    assert(kept_views(out_before) + rest_before =~= kept_views(out@) + rest);
                }
            } else {
                skip = Some(node.depth);
            }
        }
        i = i + 1;
    }
    proof {
        assert(kept_views(out@) + Seq::<KeptView>::empty() =~= kept_views(out@));
    }
    out
}

} // verus!
