//! The warnings that mods carry, and the banner a player has to acknowledge
//! before the game is launched.

use vstd::prelude::*;
use vstd::string::StringExecFns;
use vstd::utf8::encode_utf8;

verus! {

/// A warning that a mod wants shown before the game starts.
#[derive(Clone, Debug, PartialEq, Eq)]
pub struct ModWarning {
    pub title: String,
    pub body: String,
}

/// An active mod, as far as warnings are concerned.
#[derive(Clone, Debug, PartialEq, Eq)]
pub struct ActiveMod {
    /// The name that identifies the mod.
    pub unique_name: String,
    /// The mod's warning, if it has one.
    pub warning: Option<ModWarning>,
}

/// A warning that has not been acknowledged yet, with the mod it belongs to.
#[derive(Clone, Debug, PartialEq, Eq)]
pub struct PendingWarning {
    pub unique_name: String,
    pub title: String,
    pub body: String,
}

/// What a mod warning holds, as plain values.
pub struct ModWarningView {
    pub title: Seq<char>,
    pub body: Seq<char>,
}

/// What an active mod holds, as plain values.
pub struct ActiveModView {
    pub unique_name: Seq<char>,
    pub warning: Option<ModWarningView>,
}

/// What a pending warning holds, as plain values.
pub struct PendingWarningView {
    pub unique_name: Seq<char>,
    pub title: Seq<char>,
    pub body: Seq<char>,
}

impl View for ModWarning {
    type V = ModWarningView;

    open spec fn view(&self) -> ModWarningView {
        ModWarningView { title: self.title@, body: self.body@ }
    }
}

impl View for ActiveMod {
    type V = ActiveModView;

    open spec fn view(&self) -> ActiveModView {
        ActiveModView {
            unique_name: self.unique_name@,
            warning: match self.warning {
                Some(warning) => Some(warning@),
                None => None,
            },
        }
    }
}

impl View for PendingWarning {
    type V = PendingWarningView;

    open spec fn view(&self) -> PendingWarningView {
        PendingWarningView { unique_name: self.unique_name@, title: self.title@, body: self.body@ }
    }
}

/// The texts of a list of strings.
pub open spec fn spec_texts(names: Seq<String>) -> Seq<Seq<char>> {
    names.map_values(|name: String| name@)
}

/// The plain values of a list of mods.
pub open spec fn spec_mods(mods: Seq<ActiveMod>) -> Seq<ActiveModView> {
    mods.map_values(|m: ActiveMod| m@)
}

/// The plain values of a list of pending warnings.
pub open spec fn spec_pending(pending: Seq<PendingWarning>) -> Seq<PendingWarningView> {
    pending.map_values(|w: PendingWarning| w@)
}

/// The warning that one mod contributes: its own, unless it has none or its
/// name is among the ignored ones.
pub open spec fn spec_applicable(m: ActiveModView, ignore: Seq<Seq<char>>) -> Option<
    PendingWarningView,
> {
    match m.warning {
        Some(warning) => if ignore.contains(m.unique_name) {
            None
        } else {
            Some(
                PendingWarningView {
                    unique_name: m.unique_name,
                    title: warning.title,
                    body: warning.body,
                },
            )
        },
        None => None,
    }
}

/// The warnings of a list of mods, in the mods' order, without those whose
/// mod is ignored.
pub open spec fn spec_get_warnings(mods: Seq<ActiveModView>, ignore: Seq<Seq<char>>) -> Seq<
    PendingWarningView,
> {
    mods.filter_map(|m: ActiveModView| spec_applicable(m, ignore))
}

/// Whether `name` is one of `names`.
pub fn contains_name(names: &Vec<String>, name: &String) -> (found: bool)
    ensures
        found == spec_texts(names@).contains(name@),
{
    let mut i: usize = 0;
    while i < names.len()
        invariant
            0 <= i <= names.len(),
            forall|k: int| 0 <= k < i ==> names@[k]@ != name@,
        decreases names.len() - i,
    {
        if names[i] == *name {
            assert(spec_texts(names@)[i as int] == name@);
            return true;
        }
        i += 1;
    }
    false
}

/// Collects the warnings of the given mods, leaving out every mod whose name
/// is in `ignore`. The warnings come in the order of the mods.
pub fn get_warnings(mods: &Vec<ActiveMod>, ignore: &Vec<String>) -> (pending: Vec<PendingWarning>)
    ensures
        spec_pending(pending@) == spec_get_warnings(spec_mods(mods@), spec_texts(ignore@)),
{
    let mut pending: Vec<PendingWarning> = Vec::new();
    let ghost pick = |m: ActiveModView| spec_applicable(m, spec_texts(ignore@));
    let mut i: usize = 0;
    proof {
        assert(spec_mods(mods@).take(0).filter_map(pick) =~= Seq::empty());
        assert(spec_pending(pending@) =~= Seq::empty());
    }
    while i < mods.len()
        invariant
            0 <= i <= mods.len(),
            pick == |m: ActiveModView| spec_applicable(m, spec_texts(ignore@)),
            spec_pending(pending@) == spec_mods(mods@).take(i as int).filter_map(pick),
        decreases mods.len() - i,
    {
        let m = &mods[i];
        let ghost before = spec_pending(pending@);
        proof {
            let all = spec_mods(mods@);
            assert(all.take(i + 1).drop_last() =~= all.take(i as int));
            assert(all.take(i + 1).last() == m@);
        }
        match &m.warning {
            Some(warning) => {
                if !contains_name(ignore, &m.unique_name) {
                    pending.push(
                        PendingWarning {
                            unique_name: m.unique_name.clone(),
                            title: warning.title.clone(),
                            body: warning.body.clone(),
                        },
                    );
                    assert(spec_pending(pending@) =~= before + seq![pick(m@)->Some_0]);
                }
            },
            None => {},
        }
        i += 1;
    }
    assert(spec_mods(mods@).take(mods.len() as int) =~= spec_mods(mods@));
    pending
}

/// The first line of a banner, which names the mod.
pub open spec fn spec_banner_start(unique_name: Seq<char>) -> Seq<char> {
    "====== Warning For "@ + unique_name + " ======"@
}

/// The closing rule of a banner: one `=` for every byte of the first line in UTF-8.
pub open spec fn spec_banner_end(unique_name: Seq<char>) -> Seq<char> {
    Seq::new(encode_utf8(spec_banner_start(unique_name)).len(), |i: int| '=')
}

/// The whole banner: first line, title, an empty line, body, closing rule, and
/// the request to press enter.
pub open spec fn spec_banner(warning: PendingWarningView) -> Seq<char> {
    spec_banner_start(warning.unique_name) + "\n"@ + warning.title + "\n\n"@ + warning.body
        + "\n"@ + spec_banner_end(warning.unique_name) + "\nPress Enter To Continue..."@
}

/// A rule of `width` equals signs.
fn rule(width: usize) -> (line: String)
    ensures
        line@ == Seq::new(width as nat, |i: int| '='),
{
    let mut line = String::new();
    let mut i: usize = 0;
    proof {
        assert(line@ =~= Seq::new(0, |k: int| '='));
    }
    while i < width
        invariant
            0 <= i <= width,
            line@ == Seq::new(i as nat, |k: int| '='),
        decreases width - i,
    {
        line.append("=");
        proof {
            reveal_strlit("=");
            assert(line@ =~= Seq::new((i + 1) as nat, |k: int| '='));
        }
        i += 1;
    }
    line
}

impl PendingWarning {
    /// The banner shown for this warning. Its closing rule is as wide as the
    /// first line is long in bytes.
    pub fn banner(&self) -> (text: String)
        ensures
            text@ == spec_banner(self@),
    {
        let mut start = String::from_str("====== Warning For ");
        start.append(self.unique_name.as_str());
        start.append(" ======");
        let end = rule(start.as_str().as_bytes().len());
        let mut text = start;
        text.append("\n");
        text.append(self.title.as_str());
        text.append("\n\n");
        text.append(self.body.as_str());
        text.append("\n");
        text.append(end.as_str());
        text.append("\nPress Enter To Continue...");
        text
    }
}

/// The mod names of a list of pending warnings.
pub open spec fn spec_names(pending: Seq<PendingWarningView>) -> Seq<Seq<char>> {
    pending.map_values(|w: PendingWarningView| w.unique_name)
}

/// The acknowledged names once every pending warning has been acknowledged:
/// the earlier ones, then the mod of each pending warning in order.
pub open spec fn spec_acknowledge_all(
    viewed: Seq<Seq<char>>,
    pending: Seq<PendingWarningView>,
) -> Seq<Seq<char>> {
    viewed + spec_names(pending)
}

/// A mod's warning is pending exactly as `spec_applicable` says: whatever it
/// yields for a mod of the list is among the collected warnings.
pub proof fn lemma_applicable_is_pending(
    mods: Seq<ActiveModView>,
    ignore: Seq<Seq<char>>,
    i: int,
)
    requires
        0 <= i < mods.len(),
        spec_applicable(mods[i], ignore) is Some,
    ensures
        spec_get_warnings(mods, ignore).contains(spec_applicable(mods[i], ignore)->Some_0),
    decreases mods.len(),
{
    let pick = |m: ActiveModView| spec_applicable(m, ignore);
    let rest = mods.drop_last();
    let all = mods.filter_map(pick);
    let head = rest.filter_map(pick);
    let wanted = pick(mods[i])->Some_0;
    if i == mods.len() - 1 {
        assert(all == head + seq![wanted]);
        assert(all[head.len() as int] == wanted);
    } else {
        lemma_applicable_is_pending(rest, ignore, i);
        let k = choose|k: int| 0 <= k < head.len() && head[k] == wanted;
        match pick(mods.last()) {
            Some(w) => {
                assert(all == head + seq![w]);
                assert(all[k] == wanted);
            },
            None => {},
        }
    }
}

/// Nothing is pending among mods of which none contributes a warning.
pub proof fn lemma_none_applicable(mods: Seq<ActiveModView>, ignore: Seq<Seq<char>>)
    requires
        forall|i: int| 0 <= i < mods.len() ==> spec_applicable(#[trigger] mods[i], ignore) is None,
    ensures
        spec_get_warnings(mods, ignore) == Seq::<PendingWarningView>::empty(),
    decreases mods.len(),
{
    if mods.len() > 0 {
        let rest = mods.drop_last();
        assert forall|i: int| 0 <= i < rest.len() implies spec_applicable(
            #[trigger] rest[i],
            ignore,
        ) is None by {
            assert(rest[i] == mods[i]);
        }
        lemma_none_applicable(rest, ignore);
        assert(spec_applicable(mods[mods.len() - 1], ignore) is None);
    }
}

/// An acknowledged warning is never shown again: no warning collected for a
/// configuration belongs to a mod whose name that configuration already
/// holds among the acknowledged ones.
pub proof fn lemma_acknowledged_is_not_pending(
    mods: Seq<ActiveModView>,
    viewed: Seq<Seq<char>>,
    name: Seq<char>,
)
    requires
        viewed.contains(name),
    ensures
        !spec_names(spec_get_warnings(mods, viewed)).contains(name),
    decreases mods.len(),
{
    let pick = |m: ActiveModView| spec_applicable(m, viewed);
    let all = mods.filter_map(pick);
    if mods.len() > 0 {
        let rest = mods.drop_last();
        let head = rest.filter_map(pick);
        lemma_acknowledged_is_not_pending(rest, viewed, name);
        assert forall|k: int| 0 <= k < all.len() implies all[k].unique_name != name by {
            if k < head.len() {
                assert(all[k] == head[k]);
                assert(spec_names(head)[k] == head[k].unique_name);
            } else {
                assert(all[k] == pick(mods.last())->Some_0);
            }
        }
    }
    assert forall|k: int| 0 <= k < spec_names(all).len() implies spec_names(all)[k] != name by {
        assert(spec_names(all)[k] == all[k].unique_name);
    }
}

/// Acknowledging is idempotent: once every pending warning of a configuration
/// has been acknowledged, the same mods have no pending warning left.
pub proof fn lemma_gate_is_idempotent(mods: Seq<ActiveModView>, viewed: Seq<Seq<char>>)
    ensures
        spec_get_warnings(
            mods,
            spec_acknowledge_all(viewed, spec_get_warnings(mods, viewed)),
        ) == Seq::<PendingWarningView>::empty(),
{
    let pending = spec_get_warnings(mods, viewed);
    let after = spec_acknowledge_all(viewed, pending);
    assert forall|i: int| 0 <= i < mods.len() implies spec_applicable(
        #[trigger] mods[i],
        after,
    ) is None by {
        let name = mods[i].unique_name;
        if mods[i].warning is Some {
            if viewed.contains(name) {
                let k = choose|k: int| 0 <= k < viewed.len() && viewed[k] == name;
                assert(after[k] == name);
            } else {
                lemma_applicable_is_pending(mods, viewed, i);
                let wanted = spec_applicable(mods[i], viewed)->Some_0;
                let k = choose|k: int| 0 <= k < pending.len() && pending[k] == wanted;
                assert(spec_names(pending)[k] == name);
                assert(after[viewed.len() + k] == name);
            }
        }
    }
    lemma_none_applicable(mods, after);
}

/// A copy of a list of names.
pub fn clone_names(names: &Vec<String>) -> (copy: Vec<String>)
    ensures
        spec_texts(copy@) == spec_texts(names@),
{
    let mut copy: Vec<String> = Vec::new();
    let mut i: usize = 0;
    while i < names.len()
        invariant
            0 <= i <= names.len(),
            copy@.len() == i,
            forall|k: int| 0 <= k < i ==> (#[trigger] copy@[k])@ == names@[k]@,
        decreases names.len() - i,
    {
        copy.push(names[i].clone());
        i += 1;
    }
    assert(spec_texts(copy@) =~= spec_texts(names@));
    copy
}

} // verus!
