use vstd::prelude::*;

use crate::similarity::{find_similar, is_similar, spec_any_similar, spec_is_similar, Thresholds};

verus! {

/// The categories that the weapon-icon classifier knows.
#[derive(Clone, Copy, Debug, PartialEq, Eq, Hash, Structural)]
pub enum WeaponClasses {
    AllowedPrimaryGuns,
    HeavyBomber,
    HMG,
    LMG,
    SMG08,
}

/// A banned vehicle: its display name, and the names that its first and
/// second weapon slots show.
pub struct Vehicle {
    pub pretty_name: String,
    pub primary_names: Vec<String>,
    pub secondary_names: Vec<String>,
}

/// A banned gadget: its display name and the names it is shown under.
pub struct Gadget {
    pretty_name: String,
    names: Vec<String>,
}

/// A banned weapon: its display name and the names it is shown under.
pub struct Weapon {
    pub pretty_name: String,
    pub names: Vec<String>,
}

impl Gadget {
    pub fn new(pretty_name: String, names: Vec<String>) -> (r: Gadget)
        ensures
            r.spec_pretty_name() == pretty_name@,
            r.spec_names() == names@,
    {
        Gadget { pretty_name, names }
    }

    pub closed spec fn spec_pretty_name(&self) -> Seq<char> {
        self.pretty_name@
    }

    pub closed spec fn spec_names(&self) -> Seq<String> {
        self.names@
    }
}

/// The rule set: the banned SMG family and the two banned vehicles.
pub struct BannedItems {
    pub weapon: Weapon,
    pub heavy_bomber: Vehicle,
    pub lmg: Vehicle,
}

impl BannedItems {
    /// The display label reported for a violation of the given category.
    pub open spec fn label_of(&self, category: WeaponClasses) -> Seq<char> {
        match category {
            WeaponClasses::SMG08 => self.weapon.pretty_name@,
            WeaponClasses::HeavyBomber => self.heavy_bomber.pretty_name@,
            WeaponClasses::LMG => self.lmg.pretty_name@,
            _ => Seq::empty(),
        }
    }
}

/// What the classifier said about the weapon icon: its confidence (a
/// fraction of `SCALE`) and the category it picked.
#[derive(Clone, Copy, Debug, PartialEq, Eq, Structural)]
pub struct IconReading {
    pub probability: u32,
    pub category: WeaponClasses,
}

/// Similarity of the first weapon slot's text to each known SMG08 alias, to
/// each heavy-bomber primary name, and to the label "LMG".
pub struct Slot1Scores {
    pub smg: Vec<u32>,
    pub heavy_bomber: Vec<u32>,
    pub lmg_label: u32,
}

/// Similarity of the second weapon slot's text to each heavy-bomber
/// secondary name and to each secondary name of the LMG vehicle.
pub struct Slot2Scores {
    pub heavy_bomber: Vec<u32>,
    pub lmg: Vec<u32>,
}

/// The outcome of identification, without the label.
#[derive(Clone, Copy, Debug, PartialEq, Eq, Structural)]
pub enum Verdict {
    Clean,
    Banned(WeaponClasses),
    /// The decision depends on the second weapon slot, which was not read yet.
    NeedSlot2,
}

/// The outcome of identification: no violation, a violation with its display
/// label and category, or a request to read the second weapon slot.
pub enum Detection {
    Clean,
    Banned { label: String, category: WeaponClasses },
    NeedSlot2,
}

impl Detection {
    pub open spec fn verdict(&self) -> Verdict {
        match self {
            Detection::Clean => Verdict::Clean,
            Detection::Banned { category, .. } => Verdict::Banned(*category),
            Detection::NeedSlot2 => Verdict::NeedSlot2,
        }
    }
}

/// The text evidence that the decision reads, as plain facts.
pub open spec fn smg_in_slot1(t: Thresholds, s1: Slot1Scores) -> bool {
    spec_any_similar(s1.smg@, t.weapon_name)
}

pub open spec fn bomber_in_slot1(t: Thresholds, s1: Slot1Scores) -> bool {
    spec_any_similar(s1.heavy_bomber@, t.weapon_name)
}

pub open spec fn lmg_label_in_slot1(t: Thresholds, s1: Slot1Scores) -> bool {
    spec_is_similar(s1.lmg_label, t.weapon_name)
}

pub open spec fn bomber_in_slot2(t: Thresholds, s2: Slot2Scores) -> bool {
    spec_any_similar(s2.heavy_bomber@, t.weapon_name)
}

pub open spec fn lmg_in_slot2(t: Thresholds, s2: Slot2Scores) -> bool {
    spec_any_similar(s2.lmg@, t.weapon_name)
}

/// The classifier is trusted when its confidence reaches the threshold.
pub open spec fn icon_confident(t: Thresholds, icon: IconReading) -> bool {
    icon.probability >= t.weapon_icon
}

/// Text-only decision, used when the classifier is not confident: the SMG
/// family on slot 1, then a heavy bomber named on both slots, then an LMG
/// vehicle whose slot 1 reads like "LMG" and whose slot 2 confirms it.
pub open spec fn spec_text_only(t: Thresholds, s1: Slot1Scores, s2: Option<Slot2Scores>) -> Verdict {
    if smg_in_slot1(t, s1) {
        Verdict::Banned(WeaponClasses::SMG08)
    } else if bomber_in_slot1(t, s1) && s2 is None {
        Verdict::NeedSlot2
    } else if bomber_in_slot1(t, s1) && bomber_in_slot2(t, s2->0) {
        Verdict::Banned(WeaponClasses::HeavyBomber)
    } else if !lmg_label_in_slot1(t, s1) {
        Verdict::Clean
    } else if s2 is None {
        Verdict::NeedSlot2
    } else if lmg_in_slot2(t, s2->0) {
        Verdict::Banned(WeaponClasses::LMG)
    } else {
        Verdict::Clean
    }
}

/// Decision when the classifier is confident: its category picks the
/// confirming rule. A heavy bomber needs slot 1 or slot 2, an LMG vehicle
/// slot 2, an SMG08 slot 1; any other category is clean.
pub open spec fn spec_confirmed(t: Thresholds, category: WeaponClasses, s1: Slot1Scores, s2: Option<Slot2Scores>) -> Verdict {
    match category {
        WeaponClasses::HeavyBomber => {
            if bomber_in_slot1(t, s1) {
                Verdict::Banned(WeaponClasses::HeavyBomber)
            } else if s2 is None {
                Verdict::NeedSlot2
            } else if bomber_in_slot2(t, s2->0) {
                Verdict::Banned(WeaponClasses::HeavyBomber)
            } else {
                Verdict::Clean
            }
        },
        WeaponClasses::LMG => {
            if s2 is None {
                Verdict::NeedSlot2
            } else if lmg_in_slot2(t, s2->0) {
                Verdict::Banned(WeaponClasses::LMG)
            } else {
                Verdict::Clean
            }
        },
        WeaponClasses::SMG08 => {
            if smg_in_slot1(t, s1) {
                Verdict::Banned(WeaponClasses::SMG08)
            } else {
                Verdict::Clean
            }
        },
        _ => Verdict::Clean,
    }
}

pub open spec fn spec_detect(t: Thresholds, icon: IconReading, s1: Slot1Scores, s2: Option<Slot2Scores>) -> Verdict {
    if icon_confident(t, icon) {
        spec_confirmed(t, icon.category, s1, s2)
    } else {
        spec_text_only(t, s1, s2)
    }
}

/// One step of a confirmation rule.
enum Step {
    Found,
    NotFound,
    NeedSlot2,
}

fn copy_label(s: &String) -> (r: String)
    ensures
        r@ == s@,
{
    s.clone()
}

fn banned(items: &BannedItems, category: WeaponClasses) -> (r: Detection)
    ensures
        r.verdict() == Verdict::Banned(category),
        r is Banned ==> r->label@ == items.label_of(category),
{
    let label = match category {
        WeaponClasses::SMG08 => copy_label(&items.weapon.pretty_name),
        WeaponClasses::HeavyBomber => copy_label(&items.heavy_bomber.pretty_name),
        WeaponClasses::LMG => copy_label(&items.lmg.pretty_name),
        _ => String::new(),
    };
    Detection::Banned { label, category }
}

/// Slot 1 names a member of the SMG08 family.
fn smg_slot1(t: &Thresholds, s1: &Slot1Scores) -> (r: bool)
    ensures
        r == smg_in_slot1(*t, *s1),
{
    find_similar(&s1.smg, t.weapon_name)
}

/// The heavy-bomber rule. With `use_or` one matching slot confirms it (slot 2
/// is needed only when slot 1 does not match); without, both slots must
/// match (slot 2 is needed only when slot 1 matches).
fn heavy_bomber_slot1_slot2(t: &Thresholds, s1: &Slot1Scores, s2: Option<&Slot2Scores>, use_or: bool) -> (r: Step)
    ensures
        use_or ==> (r is Found <==> (bomber_in_slot1(*t, *s1) || (s2 is Some && bomber_in_slot2(*t, *s2->0)))),
        use_or ==> (r is NeedSlot2 <==> (!bomber_in_slot1(*t, *s1) && s2 is None)),
        !use_or ==> (r is Found <==> (bomber_in_slot1(*t, *s1) && s2 is Some && bomber_in_slot2(*t, *s2->0))),
        !use_or ==> (r is NeedSlot2 <==> (bomber_in_slot1(*t, *s1) && s2 is None)),
{
    let slot1 = find_similar(&s1.heavy_bomber, t.weapon_name);
    if use_or && slot1 {
        return Step::Found;
    }
    if !use_or && !slot1 {
        return Step::NotFound;
    }
    match s2 {
        None => Step::NeedSlot2,
        Some(s2) => {
            if find_similar(&s2.heavy_bomber, t.weapon_name) {
                Step::Found
            } else {
                Step::NotFound
            }
        },
    }
}

/// The LMG-vehicle rule: slot 2 names the vehicle's second weapon.
fn lmg_slot2(t: &Thresholds, s2: Option<&Slot2Scores>) -> (r: Step)
    ensures
        r is Found <==> (s2 is Some && lmg_in_slot2(*t, *s2->0)),
        r is NeedSlot2 <==> s2 is None,
{
    match s2 {
        None => Step::NeedSlot2,
        Some(s2) => {
            if find_similar(&s2.lmg, t.weapon_name) {
                Step::Found
            } else {
                Step::NotFound
            }
        },
    }
}

/// Decides whether the spectated player uses a banned weapon or vehicle.
///
/// Slot 2 is read lazily: call with `slot2` set to `None` first; when the
/// result is `NeedSlot2`, read the second weapon slot and call again with its
/// scores. With `slot2` present the result is never `NeedSlot2`.
pub fn detect(
    thresholds: &Thresholds,
    items: &BannedItems,
    icon: IconReading,
    slot1: &Slot1Scores,
    slot2: Option<&Slot2Scores>,
) -> (r: Detection)
    ensures
        r.verdict() == spec_detect(
            *thresholds,
            icon,
            *slot1,
            match slot2 {
                Some(s) => Some(*s),
                None => None,
            },
        ),
        r is Banned ==> r->label@ == items.label_of(r->category),
        slot2 is Some ==> !(r is NeedSlot2),
{
    let t = thresholds;
    if icon.probability < t.weapon_icon {
        // Text only, in priority order.
        if smg_slot1(t, slot1) {
            return banned(items, WeaponClasses::SMG08);
        }
        match heavy_bomber_slot1_slot2(t, slot1, slot2, false) {
            Step::Found => {
                return banned(items, WeaponClasses::HeavyBomber);
            },
            Step::NeedSlot2 => {
                return Detection::NeedSlot2;
            },
            Step::NotFound => {},
        }
        if is_similar(slot1.lmg_label, t.weapon_name) {
            match lmg_slot2(t, slot2) {
                Step::Found => {
                    return banned(items, WeaponClasses::LMG);
                },
                Step::NeedSlot2 => {
                    return Detection::NeedSlot2;
                },
                Step::NotFound => {},
            }
        }
        return Detection::Clean;
    }
    let step = match icon.category {
        WeaponClasses::HeavyBomber => heavy_bomber_slot1_slot2(t, slot1, slot2, true),
        WeaponClasses::LMG => lmg_slot2(t, slot2),
        WeaponClasses::SMG08 => {
            if smg_slot1(t, slot1) {
                Step::Found
            } else {
                Step::NotFound
            }
        },
        _ => Step::NotFound,
    };
    match step {
        Step::Found => banned(items, icon.category),
        Step::NeedSlot2 => Detection::NeedSlot2,
        Step::NotFound => Detection::Clean,
    }
}

/// With a classifier that is not confident, an SMG08 alias on slot 1 settles
/// the case alone: the verdict is SMG08 before slot 2 is read, and stays
/// SMG08 whatever slot 2 would have said.
pub proof fn lemma_smg_text_needs_no_slot2(
    t: Thresholds,
    icon: IconReading,
    s1: Slot1Scores,
    s2: Option<Slot2Scores>,
)
    requires
        !icon_confident(t, icon),
        smg_in_slot1(t, s1),
    ensures
        spec_detect(t, icon, s1, None) == Verdict::Banned(WeaponClasses::SMG08),
        spec_detect(t, icon, s1, s2) == Verdict::Banned(WeaponClasses::SMG08),
{
}

/// A heavy bomber is confirmed by either slot when the classifier is
/// confident about the category, but by text alone only when both slots
/// match (and slot 1 does not name the SMG family, which is checked first).
pub proof fn lemma_heavy_bomber_or_versus_and(
    t: Thresholds,
    icon: IconReading,
    s1: Slot1Scores,
    s2: Slot2Scores,
)
    requires
        icon.category == WeaponClasses::HeavyBomber,
    ensures
        icon_confident(t, icon) ==> (spec_detect(t, icon, s1, Some(s2)) == Verdict::Banned(
            WeaponClasses::HeavyBomber,
        ) <==> (bomber_in_slot1(t, s1) || bomber_in_slot2(t, s2))),
        !icon_confident(t, icon) ==> (spec_detect(t, icon, s1, Some(s2)) == Verdict::Banned(
            WeaponClasses::HeavyBomber,
        ) ==> (bomber_in_slot1(t, s1) && bomber_in_slot2(t, s2))),
        !icon_confident(t, icon) && !smg_in_slot1(t, s1) && bomber_in_slot1(t, s1) && bomber_in_slot2(
            t,
            s2,
        ) ==> spec_detect(t, icon, s1, Some(s2)) == Verdict::Banned(WeaponClasses::HeavyBomber),
{
}

} // verus!
