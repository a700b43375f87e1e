//! Which chip and system a build selects from its enabled Cargo features,
//! and which exact part it links for.

use vstd::prelude::*;

use crate::catalog::chips::{chip_default_part, chip_feature, Chip, Part, PartView};
use crate::catalog::systems::{
    all_systems, registered_systems, system_chip, system_wf, SystemConfig, SystemView,
};
use crate::text::str_eq;

verus! {

/// Why a build's feature selection was refused.
#[derive(Clone, Copy, Debug, PartialEq, Eq, Structural)]
pub enum SelectionError {
    /// Not exactly one chip feature is enabled.
    ChipCount,
    /// More than one system feature is enabled.
    SystemCount,
    /// The selected system runs on another chip.
    SystemChipMismatch,
    /// A system is combined with the generated-body fixture.
    SystemWithGeneratedBody,
}

/// Whether a feature is among the enabled ones.
pub open spec fn enabled(features: Seq<String>, name: Seq<char>) -> bool {
    exists|k: int| 0 <= k < features.len() && #[trigger] features[k]@ == name
}

/// The chips whose features are enabled, in declaration order.
pub open spec fn enabled_chips(features: Seq<String>) -> Seq<Chip> {
    seq![Chip::F401, Chip::F405, Chip::F411].filter(|c: Chip| enabled(features, chip_feature(c)))
}

/// The registered systems whose features are enabled, in registration order.
pub open spec fn enabled_systems(features: Seq<String>) -> Seq<SystemView> {
    registered_systems().filter(|s: SystemView| enabled(features, s.cargo_feature))
}

/// Whether a feature name is enabled.
pub(crate) fn is_enabled(features: &Vec<String>, name: &str) -> (on: bool)
    ensures
        on == enabled(features@, name@),
{
    let n = features.len();
    let mut k: usize = 0;
    while k < n
        invariant
            n == features@.len(),
            k <= n,
            forall|m: int| 0 <= m < k ==> features@[m]@ != name@,
        decreases n - k,
    {
        if str_eq(features[k].as_str(), name) {
            assert(features@[k as int]@ == name@);
            return true;
        }
        k = k + 1;
    }
    false
}

/// The one chip whose feature is enabled; refused unless exactly one is.
pub fn selected_chip(features: &Vec<String>) -> (chip: Result<Chip, SelectionError>)
    ensures
        match chip {
            Ok(c) => enabled_chips(features@) == seq![c],
            Err(e) => e == SelectionError::ChipCount && enabled_chips(features@).len() != 1,
        },
{
    let all = Chip::ALL;
    let mut chosen: Vec<Chip> = Vec::new();
    let mut i: usize = 0;
    let ghost order = seq![Chip::F401, Chip::F405, Chip::F411];
    while i < 3
        invariant
            i <= 3,
            all@ == order,
            chosen@ == order.take(i as int).filter(|c: Chip| enabled(features@, chip_feature(c))),
        decreases 3 - i,
    {
        let chip = all[i];
        let on = is_enabled(features, chip.cargo_feature());
        proof {
            let f = |c: Chip| enabled(features@, chip_feature(c));
            assert(order.take(i + 1).drop_last() =~= order.take(i as int));
            reveal_with_fuel(Seq::<Chip>::filter, 1);
            assert(order.take(i + 1).last() == chip);
        }
        if on {
            chosen.push(chip);
        }
        i = i + 1;
    }
    proof {
        assert(order.take(3) =~= order);
    }
    if chosen.len() == 1 {
        Ok(chosen[0])
    } else {
        Err(SelectionError::ChipCount)
    }
}

/// The system whose feature is enabled, if any: refused when more than one
/// is, or when it runs on a chip other than `chip`.
pub fn selected_system(chip: Chip, features: &Vec<String>) -> (system: Result<
    Option<SystemConfig>,
    SelectionError,
>)
    ensures
        match system {
            Ok(Some(s)) => enabled_systems(features@) == seq![s@] && system_chip(s@) == chip
                && system_wf(s@),
            Ok(None) => enabled_systems(features@).len() == 0,
            Err(SelectionError::SystemCount) => enabled_systems(features@).len() > 1,
            Err(SelectionError::SystemChipMismatch) => enabled_systems(features@).len() == 1
                && system_chip(enabled_systems(features@)[0]) != chip,
            Err(_) => false,
        },
{
    let mut systems = all_systems();
    let n = systems.len();
    let mut chosen: Vec<usize> = Vec::new();
    let mut i: usize = 0;
    let ghost f = |s: SystemView| enabled(features@, s.cargo_feature);
    while i < n
        invariant
            n == systems@.len(),
            n == registered_systems().len(),
            i <= n,
            forall|k: int|
                0 <= k < n ==> #[trigger] systems@[k]@ == registered_systems()[k] && system_wf(
                    systems@[k]@,
                ),
            forall|k: int| 0 <= k < chosen@.len() ==> #[trigger] chosen@[k] < n,
            f == (|s: SystemView| enabled(features@, s.cargo_feature)),
            chosen@.map_values(|k: usize| registered_systems()[k as int])
                == registered_systems().take(i as int).filter(f),
        decreases n - i,
    {
        let name = systems[i].feature();
        let on = is_enabled(features, name);
        proof {
            let v = registered_systems()[i as int];
            assert(systems@[i as int]@ == v);
            assert(name@ == v.cargo_feature);
            assert(on == f(v));
            assert(registered_systems().take(i + 1).drop_last() =~= registered_systems().take(
                i as int,
            ));
            reveal_with_fuel(Seq::<SystemView>::filter, 1);
            assert(registered_systems().take(i + 1).last() == v);
        }
        if on {
            let ghost before = chosen@;
            chosen.push(i);
            proof {
                assert(chosen@.map_values(|k: usize| registered_systems()[k as int])
                    =~= before.map_values(|k: usize| registered_systems()[k as int]).push(
                    registered_systems()[i as int],
                ));
            }
        }
        i = i + 1;
    }
    proof {
        assert(registered_systems().take(n as int) =~= registered_systems());
    }
    if chosen.len() > 1 {
        return Err(SelectionError::SystemCount);
    }
    if chosen.len() == 0 {
        return Ok(None);
    }
    let system = systems.remove(chosen[0]);
    proof {
        assert(chosen@.map_values(|k: usize| registered_systems()[k as int]) =~= seq![system@]);
    }
    if system.chip() != chip {
        Err(SelectionError::SystemChipMismatch)
    } else {
        Ok(Some(system))
    }
}

/// The part a build links for: its system's part, or the chip's default
/// part without a system.
pub open spec fn linked_part(chip: Chip, system: Option<SystemView>) -> PartView {
    match system {
        Some(s) => s.part,
        None => chip_default_part(chip),
    }
}

/// The part to link for `chip` and the selected system, if any. A system is
/// refused when it runs on another chip, or when the generated-body fixture
/// is selected, which is not a system's firmware.
pub fn linker_part(chip: Chip, system: Option<&SystemConfig>, generated_body: bool) -> (part: Result<
    Part,
    SelectionError,
>)
    requires
        system matches Some(s) ==> system_wf(s@),
    ensures
        match system {
            Some(s) => if system_chip(s@) != chip {
                part == Err::<Part, SelectionError>(SelectionError::SystemChipMismatch)
            } else if generated_body {
                part == Err::<Part, SelectionError>(SelectionError::SystemWithGeneratedBody)
            } else {
                part matches Ok(p) && p@ == s@.part
            },
            None => part matches Ok(p) && p@ == chip_default_part(chip),
        },
{
    match system {
        Some(s) => {
            if s.chip() != chip {
                return Err(SelectionError::SystemChipMismatch);
            }
            if generated_body {
                return Err(SelectionError::SystemWithGeneratedBody);
            }
            Ok(*s.linked_part())
        },
        None => Ok(chip.config().default_part),
    }
}

/// Whether a probe profile's chip names the part a build links for: the
/// flashing profile of a system must target the exact part it is linked as.
pub fn probe_matches(part: &Part, profile_chip: &str) -> (matches: bool)
    ensures
        matches == (profile_chip@ == part@.probe_chip),
{
    str_eq(profile_chip, part.probe_chip)
}

} // verus!
