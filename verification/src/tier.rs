use vstd::prelude::*;
use crate::models::UserTier;
use crate::text::{ends_with, has_suffix};

verus! {

/// One line of a tier policy: an email address that ends with `suffix`
/// belongs to `tier`.
#[derive(Debug)]
pub struct TierRule {
    pub suffix: String,
    pub tier: UserTier,
}

impl View for TierRule {
    type V = (Seq<char>, UserTier);

    open spec fn view(&self) -> (Seq<char>, UserTier) {
        (self.suffix@, self.tier)
    }
}

/// The rules of a list, as plain values.
pub open spec fn rule_views(rules: Seq<TierRule>) -> Seq<(Seq<char>, UserTier)> {
    Seq::new(rules.len(), |i: int| rules[i]@)
}

/// Whether the rules stand in order of privilege, the most privileged tier
/// first.
pub open spec fn ordered(rules: Seq<(Seq<char>, UserTier)>) -> bool {
    forall|i: int, j: int| 0 <= i <= j < rules.len() ==> rules[i].1.rank() <= rules[j].1.rank()
}

/// The place of the first rule from `from` onwards that `email` meets, or
/// the number of rules if it meets none.
pub open spec fn first_match(rules: Seq<(Seq<char>, UserTier)>, email: Seq<char>, from: int) -> int
    decreases rules.len() - from,
{
    if from < 0 || from >= rules.len() {
        rules.len() as int
    } else if ends_with(email, rules[from].0) {
        from
    } else {
        first_match(rules, email, from + 1)
    }
}

/// The tier of an email address: that of the first rule it meets, and
/// `Normal` where it meets none or is absent.
pub open spec fn classify(rules: Seq<(Seq<char>, UserTier)>, email: Option<Seq<char>>) -> UserTier {
    match email {
        Some(address) => {
            let place = first_match(rules, address, 0);
            if place < rules.len() {
                rules[place].1
            } else {
                UserTier::Normal
            }
        },
        None => UserTier::Normal,
    }
}

/// The place where a rule for a tier of rank `rank` is put: behind the
/// rules of its own and of more privileged tiers.
pub open spec fn place_for(rules: Seq<(Seq<char>, UserTier)>, rank: nat, from: int) -> int
    decreases rules.len() - from,
{
    if from < 0 || from >= rules.len() {
        rules.len() as int
    } else if rules[from].1.rank() > rank {
        from
    } else {
        place_for(rules, rank, from + 1)
    }
}

/// A table of rules by which an identity's attributes give its tier.
pub struct TierPolicy {
    rules: Vec<TierRule>,
}

impl View for TierPolicy {
    type V = Seq<(Seq<char>, UserTier)>;

    closed spec fn view(&self) -> Seq<(Seq<char>, UserTier)> {
        rule_views(self.rules@)
    }
}

/// The first match lies within the table, no rule before it is met, and
/// the rule at it is.
pub proof fn lemma_first_match(rules: Seq<(Seq<char>, UserTier)>, email: Seq<char>, from: int)
    requires
        0 <= from <= rules.len(),
    ensures
        from <= first_match(rules, email, from) <= rules.len(),
        first_match(rules, email, from) < rules.len() ==> ends_with(
            email,
            rules[first_match(rules, email, from)].0,
        ),
        forall|i: int| from <= i < first_match(rules, email, from) ==> !ends_with(email, rules[i].0),
    decreases rules.len() - from,
{
    if from < rules.len() && !ends_with(email, rules[from].0) {
        lemma_first_match(rules, email, from + 1);
    }
}

/// The place for a rule lies within the table, the rules before it are of
/// its rank or above, and the rule at it is of a lower one.
pub proof fn lemma_place_for(rules: Seq<(Seq<char>, UserTier)>, rank: nat, from: int)
    requires
        0 <= from <= rules.len(),
    ensures
        from <= place_for(rules, rank, from) <= rules.len(),
        place_for(rules, rank, from) < rules.len() ==> rules[place_for(rules, rank, from)].1.rank()
            > rank,
        forall|i: int| from <= i < place_for(rules, rank, from) ==> rules[i].1.rank() <= rank,
    decreases rules.len() - from,
{
    if from < rules.len() && rules[from].1.rank() <= rank {
        lemma_place_for(rules, rank, from + 1);
    }
}

/// Without an email address an identity is `Normal`, whatever the rules.
pub proof fn lemma_absent_email_is_normal(rules: Seq<(Seq<char>, UserTier)>)
    ensures
        classify(rules, None) == UserTier::Normal,
{
}

/// An address that meets no rule is `Normal`; one that meets a rule has the
/// tier of the first rule it meets.
pub proof fn lemma_first_match_wins(rules: Seq<(Seq<char>, UserTier)>, email: Seq<char>)
    ensures
        (forall|i: int| 0 <= i < rules.len() ==> !ends_with(email, rules[i].0)) ==> classify(
            rules,
            Some(email),
        ) == UserTier::Normal,
        forall|i: int|
            0 <= i < rules.len() && ends_with(email, rules[i].0) && (forall|j: int|
                0 <= j < i ==> !ends_with(email, rules[j].0)) ==> classify(rules, Some(email))
                == rules[i].1,
{
    lemma_first_match(rules, email, 0);
    let place = first_match(rules, email, 0);
    assert forall|i: int|
        0 <= i < rules.len() && ends_with(email, rules[i].0) && (forall|j: int|
            0 <= j < i ==> !ends_with(email, rules[j].0)) implies classify(rules, Some(email))
        == rules[i].1 by {
        assert(place == i);
    }
}

/// Where the rules stand in order of privilege, no rule that the address
/// meets gives a more privileged tier than the address has.
pub proof fn lemma_most_privileged_wins(
    rules: Seq<(Seq<char>, UserTier)>,
    email: Seq<char>,
    i: int,
)
    requires
        ordered(rules),
        0 <= i < rules.len(),
        ends_with(email, rules[i].0),
    ensures
        classify(rules, Some(email)).rank() <= rules[i].1.rank(),
{
    lemma_first_match(rules, email, 0);
}

impl UserTier {
    /// Position of the tier in the order of privilege.
    pub fn privilege_rank(&self) -> (r: u8)
        ensures
            r == self.rank(),
    {
        match self {
            UserTier::Admin => 0,
            UserTier::Preferred => 1,
            UserTier::Normal => 2,
            UserTier::Free => 3,
        }
    }
}

impl TierPolicy {
    /// The rules stand in order of privilege.
    pub open spec fn well_formed(&self) -> bool {
        ordered(self@)
    }

    /// A policy without rules: every identity is `Normal`.
    pub fn new() -> (policy: Self)
        ensures
            policy@ == Seq::<(Seq<char>, UserTier)>::empty(),
            policy.well_formed(),
    {
        let policy = TierPolicy { rules: Vec::new() };
        assert(policy@ =~= Seq::<(Seq<char>, UserTier)>::empty());
        policy
    }

    /// The rules of the standard policy.
    pub open spec fn standard_rules() -> Seq<(Seq<char>, UserTier)> {
        seq![
            ("@admin.company.com"@, UserTier::Admin),
            ("@preferred.company.com"@, UserTier::Preferred),
        ]
    }

    /// The policy of the company: the addresses of its administrators'
    /// domain are `Admin`, those of its preferred domain `Preferred`.
    pub fn standard() -> (policy: Self)
        ensures
            policy@ == Self::standard_rules(),
            policy.well_formed(),
    {
        let mut rules: Vec<TierRule> = Vec::new();
        rules.push(
            TierRule { suffix: "@admin.company.com".to_owned(), tier: UserTier::Admin },
        );
        rules.push(
            TierRule { suffix: "@preferred.company.com".to_owned(), tier: UserTier::Preferred },
        );
        let policy = TierPolicy { rules };
        assert(policy@ =~= Self::standard_rules());
        policy
    }

    /// Adds the rule that an address ending with `suffix` belongs to
    /// `tier`, behind the rules of that tier and of more privileged ones.
    pub fn add_rule(&mut self, suffix: String, tier: UserTier)
        requires
            old(self).well_formed(),
        ensures
            final(self).well_formed(),
            final(self)@ == old(self)@.insert(
                place_for(old(self)@, tier.rank(), 0),
                (suffix@, tier),
            ),
    {
        let ghost before = self@;
        let rank = tier.privilege_rank();
        let mut place: usize = 0;
        while place < self.rules.len() && self.rules[place].tier.privilege_rank() <= rank
            invariant
                place <= self.rules.len(),
                self@ == before,
                rank == tier.rank(),
                place_for(before, tier.rank(), 0) == place_for(before, tier.rank(), place as int),
            decreases self.rules.len() - place,
        {
            assert(before[place as int] == self.rules@[place as int]@);
            place = place + 1;
        }
        proof {
            if place < self.rules.len() {
                assert(before[place as int] == self.rules@[place as int]@);
            }
            lemma_place_for(before, tier.rank(), 0);
        }
        self.rules.insert(place, TierRule { suffix, tier });
        proof {
            let after = self@;
            assert(after =~= before.insert(place as int, (suffix@, tier)));
            assert forall|i: int, j: int| 0 <= i <= j < after.len() implies after[i].1.rank()
                <= after[j].1.rank() by {
                if i < place && j > place {
                    assert(before[i].1.rank() <= before[j - 1].1.rank());
                }
                if i > place {
                    assert(before[i - 1].1.rank() <= before[j - 1].1.rank());
                }
                if j < place {
                    assert(before[i].1.rank() <= before[j].1.rank());
                }
                if i == place && j > place {
                    assert(before[place as int].1.rank() <= before[j - 1].1.rank());
                }
            }
        }
    }

    /// The number of rules.
    pub fn len(&self) -> (n: usize)
        ensures
            n == self@.len(),
    {
        self.rules.len()
    }

    /// The tier of an identity with the email address `email`.
    pub fn classify(&self, email: Option<&str>) -> (tier: UserTier)
        ensures
            tier == classify(
                self@,
                match email {
                    Some(address) => Some(address@),
                    None => None,
                },
            ),
    {
        match email {
            None => UserTier::Normal,
            Some(address) => {
                let mut i: usize = 0;
                while i < self.rules.len()
                    invariant
                        i <= self.rules.len(),
                        email == Some(address),
                        first_match(self@, address@, 0) == first_match(self@, address@, i as int),
                    decreases self.rules.len() - i,
                {
                    assert(self@[i as int] == self.rules@[i as int]@);
                    if has_suffix(address, self.rules[i].suffix.as_str()) {
                        return self.rules[i].tier;
                    }
                    i = i + 1;
                }
                UserTier::Normal
            },
        }
    }
}

} // verus!
