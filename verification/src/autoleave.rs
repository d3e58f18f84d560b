//! Per-guild autoleave policy: the modes, their option names, and the table
//! of what each guild has chosen.

use std::collections::HashMap;
use vstd::prelude::*;

use crate::text::same_text;
use vstd::std_specs::hash::spec_hash_map_iter;
use vstd::std_specs::iter::IteratorSpec;

verus! {

broadcast use vstd::std_specs::hash::group_hash_axioms;

/// When the bot leaves a voice channel on its own.
#[derive(Clone, Copy, Debug, PartialEq, Eq, Structural)]
pub enum AutoLeaveMode {
    /// Never leave on its own.
    Disabled,
    /// Leave once no human remains in the bot's voice channel.
    WhenNoHumans,
}

/// The option name of a mode, as the slash command and the settings file
/// spell it.
pub open spec fn mode_name(mode: AutoLeaveMode) -> Seq<char> {
    match mode {
        AutoLeaveMode::Disabled => "disabled"@,
        AutoLeaveMode::WhenNoHumans => "when_no_humans"@,
    }
}

/// The mode that an option name selects, if any.
pub open spec fn mode_from_name(name: Seq<char>) -> Option<AutoLeaveMode> {
    if name == "disabled"@ {
        Some(AutoLeaveMode::Disabled)
    } else if name == "when_no_humans"@ {
        Some(AutoLeaveMode::WhenNoHumans)
    } else {
        None
    }
}

impl AutoLeaveMode {
    /// The option name of this mode.
    pub fn as_str(self) -> (r: &'static str)
        ensures
            r@ == mode_name(self),
    {
        match self {
            AutoLeaveMode::Disabled => "disabled",
            AutoLeaveMode::WhenNoHumans => "when_no_humans",
        }
    }

    /// The mode that the option name `value` selects, if any.
    pub fn from_option(value: &str) -> (r: Option<AutoLeaveMode>)
        ensures
            r == mode_from_name(value@),
    {
        if same_text(value, "disabled") {
            Some(AutoLeaveMode::Disabled)
        } else if same_text(value, "when_no_humans") {
            Some(AutoLeaveMode::WhenNoHumans)
        } else {
            None
        }
    }
}

/// The mode of `guild` under the choices `modes`: what the guild chose, or
/// `Disabled` when it chose nothing.
pub open spec fn mode_of(modes: Map<u64, AutoLeaveMode>, guild: u64) -> AutoLeaveMode {
    if modes.contains_key(guild) {
        modes[guild]
    } else {
        AutoLeaveMode::Disabled
    }
}

/// The map that recording `entries` from first to last builds.
pub open spec fn entries_map(entries: Seq<(u64, AutoLeaveMode)>) -> Map<u64, AutoLeaveMode>
    decreases entries.len(),
{
    if entries.len() == 0 {
        Map::empty()
    } else {
        entries_map(entries.drop_last()).insert(entries.last().0, entries.last().1)
    }
}

/// Recording entries that all agree with `m` builds a part of `m` that holds
/// every recorded guild.
proof fn lemma_entries_map_agrees(s: Seq<(u64, AutoLeaveMode)>, m: Map<u64, AutoLeaveMode>)
    requires
        forall|i: int| 0 <= i < s.len() ==> m.contains_key(#[trigger] s[i].0) && m[s[i].0] == s[i].1,
    ensures
        forall|k: u64| #[trigger]
            entries_map(s).contains_key(k) ==> m.contains_key(k) && entries_map(s)[k] == m[k],
        forall|i: int| 0 <= i < s.len() ==> entries_map(s).contains_key(#[trigger] s[i].0),
    decreases s.len(),
{
    if s.len() == 0 {
        assert(entries_map(s) == Map::<u64, AutoLeaveMode>::empty());
    } else {
        let p = s.drop_last();
        assert forall|i: int| 0 <= i < p.len() implies m.contains_key(#[trigger] p[i].0) && m[p[i].0]
            == p[i].1 by {
            assert(p[i] == s[i]);
        }
        lemma_entries_map_agrees(p, m);
        let last = s[s.len() - 1];
        assert(m.contains_key(last.0) && m[last.0] == last.1);
        assert(entries_map(s) == entries_map(p).insert(last.0, last.1));
        assert forall|i: int| 0 <= i < s.len() implies entries_map(s).contains_key(
            #[trigger] s[i].0,
        ) by {
            if i < s.len() - 1 {
                assert(p[i] == s[i]);
            }
        }
    }
}

/// The entries listed while walking a map's iterator rebuild the map, and
/// list each key once.
proof fn lemma_entries_of_map(
    m: Map<u64, AutoLeaveMode>,
    out: Seq<(u64, AutoLeaveMode)>,
    v: Seq<(&u64, &AutoLeaveMode)>,
)
    requires
        out.len() == v.len(),
        forall|i: int| 0 <= i < out.len() ==> (#[trigger] out[i]).0 == *v[i].0 && out[i].1 == *v[i].1,
        forall|i: int| 0 <= i < v.len() ==> m.contains_key(*v[i].0) && m[*v[i].0] == *v[i].1,
        forall|k: u64| #[trigger] m.contains_key(k) ==> v.contains((&k, &m[k])),
        v.no_duplicates(),
        v.len() == m.dom().len(),
    ensures
        out.len() == m.len(),
        forall|i: int|
            0 <= i < out.len() ==> m.contains_key(#[trigger] out[i].0) && m[out[i].0] == out[i].1,
        forall|i: int, j: int| 0 <= i < j < out.len() ==> #[trigger] out[i].0 != #[trigger] out[j].0,
        entries_map(out) == m,
{
    assert forall|i: int| 0 <= i < out.len() implies m.contains_key(#[trigger] out[i].0) && m[out[i].0]
        == out[i].1 by {
        assert(out[i].0 == *v[i].0);
    }
    assert forall|i: int, j: int| 0 <= i < j < out.len() implies #[trigger] out[i].0
        != #[trigger] out[j].0 by {
        if out[i].0 == out[j].0 {
            assert(v[i] == v[j]);
        }
    }
    lemma_entries_map_agrees(out, m);
    assert forall|k: u64| m.contains_key(k) implies #[trigger] entries_map(out).contains_key(k) by {
        assert(v.contains((&k, &m[k])));
        let i = choose|i: int| 0 <= i < v.len() && v[i] == (&k, &m[k]);
        assert(out[i].0 == k);
    }
    assert(entries_map(out) =~= m);
}

/// The autoleave mode that each guild has chosen, by guild id.
pub struct AutoLeaveSettings {
    modes: HashMap<u64, AutoLeaveMode>,
}

impl View for AutoLeaveSettings {
    type V = Map<u64, AutoLeaveMode>;

    closed spec fn view(&self) -> Map<u64, AutoLeaveMode> {
        self.modes@
    }
}

impl AutoLeaveSettings {
    /// Settings in which no guild has chosen a mode.
    pub fn new() -> (r: AutoLeaveSettings)
        ensures
            r@ == Map::<u64, AutoLeaveMode>::empty(),
    {
        AutoLeaveSettings { modes: HashMap::new() }
    }

    /// Settings holding the stored `(guild, mode)` entries; a later entry for
    /// the same guild wins.
    pub fn from_entries(entries: Vec<(u64, AutoLeaveMode)>) -> (r: AutoLeaveSettings)
        ensures
            r@ == entries_map(entries@),
    {
        let mut modes: HashMap<u64, AutoLeaveMode> = HashMap::new();
        let mut i: usize = 0;
        while i < entries.len()
            invariant
                i <= entries.len(),
                modes@ == entries_map(entries@.take(i as int)),
            decreases entries.len() - i,
        {
            let (guild, mode) = entries[i];
            modes.insert(guild, mode);
            assert(entries@.take(i + 1).drop_last() == entries@.take(i as int));
            i = i + 1;
        }
        assert(entries@.take(entries.len() as int) == entries@);
        AutoLeaveSettings { modes }
    }

    /// The mode of `guild_id`; `Disabled` when the guild chose none.
    pub fn get(&self, guild_id: u64) -> (r: AutoLeaveMode)
        ensures
            r == mode_of(self@, guild_id),
    {
        match self.modes.get(&guild_id) {
            Some(m) => *m,
            None => AutoLeaveMode::Disabled,
        }
    }

    /// Records that `guild_id` chose `mode`.
    pub fn set(&mut self, guild_id: u64, mode: AutoLeaveMode)
        ensures
            final(self)@ == old(self)@.insert(guild_id, mode),
    {
        self.modes.insert(guild_id, mode);
    }

    /// Every `(guild, mode)` choice, each guild once, in no set order.
    pub fn entries(&self) -> (r: Vec<(u64, AutoLeaveMode)>)
        ensures
            r@.len() == self@.len(),
            forall|i: int|
                0 <= i < r@.len() ==> self@.contains_key(#[trigger] r@[i].0) && self@[r@[i].0]
                    == r@[i].1,
            forall|i: int, j: int|
                0 <= i < j < r@.len() ==> #[trigger] r@[i].0 != #[trigger] r@[j].0,
            entries_map(r@) == self@,
    {
        let mut out: Vec<(u64, AutoLeaveMode)> = Vec::new();
        let ghost all = spec_hash_map_iter(&self.modes).remaining();
        for (k, v) in it: self.modes.iter()
            invariant
                it.seq() == all,
                out@.len() == it.index(),
                forall|i: int|
                    0 <= i < out@.len() ==> (#[trigger] out@[i]).0 == *it.seq()[i].0 && out@[i].1
                        == *it.seq()[i].1,
        {
            out.push((*k, *v));
        }
        proof {
            lemma_entries_of_map(self.modes@, out@, all);
        }
        out
    }
}

/// A mode's option name selects that mode again.
pub proof fn law_mode_name_round_trip(mode: AutoLeaveMode)
    ensures
        mode_from_name(mode_name(mode)) == Some(mode),
{
    reveal_strlit("disabled");
    reveal_strlit("when_no_humans");
    assert(("disabled"@).len() != ("when_no_humans"@).len());
}

/// After a guild sets a mode, the guild has that mode and every other guild
/// keeps its own.
pub proof fn law_set_then_get(modes: Map<u64, AutoLeaveMode>, guild: u64, mode: AutoLeaveMode, other: u64)
    ensures
        mode_of(modes.insert(guild, mode), guild) == mode,
        other != guild ==> mode_of(modes.insert(guild, mode), other) == mode_of(modes, other),
{
}

/// A guild that never chose a mode has autoleave disabled.
pub proof fn law_unset_guild_disabled(guild: u64)
    ensures
        mode_of(Map::<u64, AutoLeaveMode>::empty(), guild) == AutoLeaveMode::Disabled,
{
}

/// Any listing of a guild's settings that names each guild once, agrees with
/// the settings, and is as long as they are, restores exactly those settings
/// when recorded back: saving the list of choices and loading it again loses
/// and invents nothing.
pub proof fn law_listing_restores_settings(
    modes: Map<u64, AutoLeaveMode>,
    saved: Seq<(u64, AutoLeaveMode)>,
)
    requires
        modes.dom().finite(),
        saved.len() == modes.len(),
        forall|i: int|
            0 <= i < saved.len() ==> modes.contains_key(#[trigger] saved[i].0) && modes[saved[i].0]
                == saved[i].1,
        forall|i: int, j: int| 0 <= i < j < saved.len() ==> #[trigger] saved[i].0 != #[trigger] saved[j].0,
    ensures
        entries_map(saved) == modes,
{
    let keys = saved.map_values(|p: (u64, AutoLeaveMode)| p.0);
    assert(keys.no_duplicates()) by {
        assert forall|i: int, j: int| 0 <= i < keys.len() && 0 <= j < keys.len() && i != j implies keys[i]
            != keys[j] by {
            if i < j {
                assert(saved[i].0 != saved[j].0);
            } else {
                assert(saved[j].0 != saved[i].0);
            }
        }
    }
    keys.unique_seq_to_set();
    assert(keys.to_set().subset_of(modes.dom())) by {
        assert forall|k: u64| keys.to_set().contains(k) implies modes.dom().contains(k) by {
            let i = choose|i: int| 0 <= i < keys.len() && keys[i] == k;
            assert(modes.contains_key(saved[i].0));
        }
    }
    vstd::seq_lib::seq_to_set_is_finite(keys);
    vstd::set_lib::lemma_subset_equality(keys.to_set(), modes.dom());
    lemma_entries_map_agrees(saved, modes);
    assert forall|k: u64| modes.contains_key(k) implies #[trigger] entries_map(saved).contains_key(k) by {
        assert(keys.to_set().contains(k));
        let i = choose|i: int| 0 <= i < keys.len() && keys[i] == k;
        assert(entries_map(saved).contains_key(saved[i].0));
    }
    assert(entries_map(saved) =~= modes);
}

} // verus!
