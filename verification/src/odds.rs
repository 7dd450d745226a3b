use vstd::prelude::*;

verus! {

/// A named bonus or malus that can shift a side's kill rate.
#[derive(Clone, Copy, Debug, PartialEq, Eq, Structural)]
pub enum Modifier {
    Commander,
    Blessing,
    Fortification,
    Claim,
    City,
    ArcherAttack,
    ArcherDefense,
    EliteAttack,
    EliteDefense,
}

/// The direction in which a modifier shifts a kill rate.
#[derive(Clone, Copy, Debug, PartialEq, Eq, Structural)]
pub enum Effect {
    Raises,
    Lowers,
}

/// One signed contribution to a side's kill rate.
#[derive(Clone, Copy, Debug, PartialEq, Eq, Structural)]
pub struct Adjustment {
    pub modifier: Modifier,
    pub effect: Effect,
}

/// A battlefield condition that can be switched on and off.
#[derive(Clone, Copy, Debug, PartialEq, Eq, Structural)]
pub enum Condition {
    AttackerPresent,
    DefenderPresent,
    AttackerBlessed,
    DefenderBlessed,
    DefenderFortified,
    AttackerClaimed,
    DefenderClaimed,
    AttackerCity,
    DefenderCity,
    AttackerArchers,
    DefenderArchers,
    AttackerElites,
    DefenderElites,
}

/// The battlefield conditions, the number of rounds to fight and the engagement cap.
///
/// `limited_engagements` is the largest number of soldiers of one side that may
/// fight in a round; zero means that everybody fights.
#[derive(Clone, Copy, Debug, PartialEq, Eq, Structural)]
pub struct WarOdds {
    pub attacker_present: bool,
    pub defender_present: bool,
    pub attacker_blessed: bool,
    pub defender_blessed: bool,
    pub defender_fortified: bool,
    pub attacker_claimed: bool,
    pub defender_claimed: bool,
    pub attacker_city: bool,
    pub defender_city: bool,
    pub attacker_archers: bool,
    pub defender_archers: bool,
    pub attacker_elites: bool,
    pub defender_elites: bool,
    pub round_count: usize,
    pub limited_engagements: usize,
}

/// The adjustment by `modifier` in the direction `effect` if `applies`, and nothing
/// otherwise.
pub open spec fn only_if(applies: bool, modifier: Modifier, effect: Effect) -> Seq<Adjustment> {
    if applies {
        seq![Adjustment { modifier, effect }]
    } else {
        Seq::empty()
    }
}

/// How many of `headcount` soldiers fight in a round under the engagement cap `cap`.
pub open spec fn engaged_of(headcount: int, cap: int) -> int {
    if cap != 0 && cap < headcount {
        cap
    } else {
        headcount
    }
}

/// Appends the adjustment `modifier`, `effect` to `terms` if `applies`.
fn push_if(terms: &mut Vec<Adjustment>, applies: bool, modifier: Modifier, effect: Effect)
    ensures
        final(terms)@ == old(terms)@ + only_if(applies, modifier, effect),
{
    if applies {
        terms.push(Adjustment { modifier, effect });
    }
}

impl WarOdds {
    /// The conditions a battle starts with: one commander, on the attacker's side,
    /// both sides blessed, twenty rounds, everybody fights.
    pub open spec fn initial() -> WarOdds {
        WarOdds {
            attacker_present: true,
            defender_present: false,
            attacker_blessed: true,
            defender_blessed: true,
            defender_fortified: false,
            attacker_claimed: false,
            defender_claimed: false,
            attacker_city: false,
            defender_city: false,
            attacker_archers: false,
            defender_archers: false,
            attacker_elites: false,
            defender_elites: false,
            round_count: 20,
            limited_engagements: 0,
        }
    }

    /// No side is made of archers and of elites at once.
    pub open spec fn exclusive(self) -> bool {
        &&& !(self.attacker_archers && self.attacker_elites)
        &&& !(self.defender_archers && self.defender_elites)
    }

    /// The conditions after `condition` is switched. Switching archers on switches the
    /// same side's elites off, and the other way round.
    pub open spec fn toggled(self, condition: Condition) -> WarOdds {
        match condition {
            Condition::AttackerPresent => WarOdds { attacker_present: !self.attacker_present, ..self },
            Condition::DefenderPresent => WarOdds { defender_present: !self.defender_present, ..self },
            Condition::AttackerBlessed => WarOdds { attacker_blessed: !self.attacker_blessed, ..self },
            Condition::DefenderBlessed => WarOdds { defender_blessed: !self.defender_blessed, ..self },
            Condition::DefenderFortified => WarOdds {
                defender_fortified: !self.defender_fortified,
                ..self
            },
            Condition::AttackerClaimed => WarOdds { attacker_claimed: !self.attacker_claimed, ..self },
            Condition::DefenderClaimed => WarOdds { defender_claimed: !self.defender_claimed, ..self },
            Condition::AttackerCity => WarOdds { attacker_city: !self.attacker_city, ..self },
            Condition::DefenderCity => WarOdds { defender_city: !self.defender_city, ..self },
            Condition::AttackerArchers => WarOdds {
                attacker_archers: !self.attacker_archers,
                attacker_elites: self.attacker_archers && self.attacker_elites,
                ..self
            },
            Condition::DefenderArchers => WarOdds {
                defender_archers: !self.defender_archers,
                defender_elites: self.defender_archers && self.defender_elites,
                ..self
            },
            Condition::AttackerElites => WarOdds {
                attacker_elites: !self.attacker_elites,
                attacker_archers: self.attacker_elites && self.attacker_archers,
                ..self
            },
            Condition::DefenderElites => WarOdds {
                defender_elites: !self.defender_elites,
                defender_archers: self.defender_elites && self.defender_archers,
                ..self
            },
        }
    }

    /// The same battle seen from the other side: every condition changes sides, and
    /// nobody is fortified, because only a defender can be.
    pub open spec fn mirrored(self) -> WarOdds {
        WarOdds {
            attacker_present: self.defender_present,
            defender_present: self.attacker_present,
            attacker_blessed: self.defender_blessed,
            defender_blessed: self.attacker_blessed,
            defender_fortified: false,
            attacker_claimed: self.defender_claimed,
            defender_claimed: self.attacker_claimed,
            attacker_city: self.defender_city,
            defender_city: self.attacker_city,
            attacker_archers: self.defender_archers,
            defender_archers: self.attacker_archers,
            attacker_elites: self.defender_elites,
            defender_elites: self.attacker_elites,
            round_count: self.round_count,
            limited_engagements: self.limited_engagements,
        }
    }

    /// What is added to and taken from the base chance to get the attackers' kill
    /// rate, in the order in which it is applied.
    pub open spec fn attacker_terms(self) -> Seq<Adjustment> {
        only_if(self.attacker_present, Modifier::Commander, Effect::Raises)
            + only_if(self.attacker_blessed, Modifier::Blessing, Effect::Raises)
            + only_if(self.defender_claimed, Modifier::Claim, Effect::Lowers)
            + only_if(
            self.defender_present && self.defender_fortified,
            Modifier::Fortification,
            Effect::Lowers,
        ) + only_if(self.defender_city, Modifier::City, Effect::Lowers)
            + only_if(self.defender_archers, Modifier::ArcherDefense, Effect::Raises)
            + only_if(self.attacker_archers, Modifier::ArcherAttack, Effect::Lowers)
            + only_if(self.attacker_elites, Modifier::EliteAttack, Effect::Raises)
            + only_if(self.defender_elites, Modifier::EliteDefense, Effect::Lowers)
    }

    /// What is added to and taken from the base chance to get the defenders' kill
    /// rate, in the order in which it is applied.
    pub open spec fn defender_terms(self) -> Seq<Adjustment> {
        only_if(self.defender_present, Modifier::Commander, Effect::Raises)
            + only_if(self.defender_blessed, Modifier::Blessing, Effect::Raises)
            + only_if(self.attacker_claimed, Modifier::Claim, Effect::Lowers)
            + only_if(self.attacker_city, Modifier::City, Effect::Lowers)
            + only_if(self.attacker_archers, Modifier::ArcherDefense, Effect::Raises)
            + only_if(self.defender_archers, Modifier::ArcherAttack, Effect::Lowers)
            + only_if(self.defender_elites, Modifier::EliteAttack, Effect::Raises)
            + only_if(self.attacker_elites, Modifier::EliteDefense, Effect::Lowers)
    }

    /// Switches `condition`.
    pub fn toggle(&mut self, condition: Condition)
        ensures
            *final(self) == old(self).toggled(condition),
            old(self).exclusive() ==> final(self).exclusive(),
    {
        let now = *self;
        *self = match condition {
            Condition::AttackerPresent => WarOdds { attacker_present: !now.attacker_present, ..now },
            Condition::DefenderPresent => WarOdds { defender_present: !now.defender_present, ..now },
            Condition::AttackerBlessed => WarOdds { attacker_blessed: !now.attacker_blessed, ..now },
            Condition::DefenderBlessed => WarOdds { defender_blessed: !now.defender_blessed, ..now },
            Condition::DefenderFortified => WarOdds {
                defender_fortified: !now.defender_fortified,
                ..now
            },
            Condition::AttackerClaimed => WarOdds { attacker_claimed: !now.attacker_claimed, ..now },
            Condition::DefenderClaimed => WarOdds { defender_claimed: !now.defender_claimed, ..now },
            Condition::AttackerCity => WarOdds { attacker_city: !now.attacker_city, ..now },
            Condition::DefenderCity => WarOdds { defender_city: !now.defender_city, ..now },
            Condition::AttackerArchers => WarOdds {
                attacker_archers: !now.attacker_archers,
                attacker_elites: now.attacker_archers && now.attacker_elites,
                ..now
            },
            Condition::DefenderArchers => WarOdds {
                defender_archers: !now.defender_archers,
                defender_elites: now.defender_archers && now.defender_elites,
                ..now
            },
            Condition::AttackerElites => WarOdds {
                attacker_elites: !now.attacker_elites,
                attacker_archers: now.attacker_elites && now.attacker_archers,
                ..now
            },
            Condition::DefenderElites => WarOdds {
                defender_elites: !now.defender_elites,
                defender_archers: now.defender_elites && now.defender_archers,
                ..now
            },
        };
    }

    /// The adjustments that make up the attackers' kill rate.
    pub fn attacker_adjustments(&self) -> (terms: Vec<Adjustment>)
        ensures
            terms@ == self.attacker_terms(),
    {
        let mut terms: Vec<Adjustment> = Vec::new();
        assert(terms@ + only_if(self.attacker_present, Modifier::Commander, Effect::Raises) =~= only_if(
            self.attacker_present,
            Modifier::Commander,
            Effect::Raises,
        ));
        push_if(&mut terms, self.attacker_present, Modifier::Commander, Effect::Raises);
        push_if(&mut terms, self.attacker_blessed, Modifier::Blessing, Effect::Raises);
        push_if(&mut terms, self.defender_claimed, Modifier::Claim, Effect::Lowers);
        push_if(
            &mut terms,
            self.defender_present && self.defender_fortified,
            Modifier::Fortification,
            Effect::Lowers,
        );
        push_if(&mut terms, self.defender_city, Modifier::City, Effect::Lowers);
        push_if(&mut terms, self.defender_archers, Modifier::ArcherDefense, Effect::Raises);
        push_if(&mut terms, self.attacker_archers, Modifier::ArcherAttack, Effect::Lowers);
        push_if(&mut terms, self.attacker_elites, Modifier::EliteAttack, Effect::Raises);
        push_if(&mut terms, self.defender_elites, Modifier::EliteDefense, Effect::Lowers);
        terms
    }

    /// The adjustments that make up the defenders' kill rate.
    pub fn defender_adjustments(&self) -> (terms: Vec<Adjustment>)
        ensures
            terms@ == self.defender_terms(),
    {
        let mut terms: Vec<Adjustment> = Vec::new();
        assert(terms@ + only_if(self.defender_present, Modifier::Commander, Effect::Raises) =~= only_if(
            self.defender_present,
            Modifier::Commander,
            Effect::Raises,
        ));
        push_if(&mut terms, self.defender_present, Modifier::Commander, Effect::Raises);
        push_if(&mut terms, self.defender_blessed, Modifier::Blessing, Effect::Raises);
        push_if(&mut terms, self.attacker_claimed, Modifier::Claim, Effect::Lowers);
        push_if(&mut terms, self.attacker_city, Modifier::City, Effect::Lowers);
        push_if(&mut terms, self.attacker_archers, Modifier::ArcherDefense, Effect::Raises);
        push_if(&mut terms, self.defender_archers, Modifier::ArcherAttack, Effect::Lowers);
        push_if(&mut terms, self.defender_elites, Modifier::EliteAttack, Effect::Raises);
        push_if(&mut terms, self.attacker_elites, Modifier::EliteDefense, Effect::Lowers);
        terms
    }

    /// How many of `headcount` soldiers of one side fight in a round.
    pub fn engaged(&self, headcount: usize) -> (fighting: usize)
        ensures
            fighting == engaged_of(headcount as int, self.limited_engagements as int),
    {
        if self.limited_engagements != 0 && self.limited_engagements < headcount {
            self.limited_engagements
        } else {
            headcount
        }
    }
}

impl Default for WarOdds {
    fn default() -> (odds: Self)
        ensures
            odds == WarOdds::initial(),
    {
        WarOdds {
            attacker_present: true,
            defender_present: false,
            attacker_blessed: true,
            defender_blessed: true,
            defender_fortified: false,
            attacker_claimed: false,
            defender_claimed: false,
            attacker_city: false,
            defender_city: false,
            attacker_archers: false,
            defender_archers: false,
            attacker_elites: false,
            defender_elites: false,
            round_count: 20,
            limited_engagements: 0,
        }
    }
}

/// The defenders' kill rate follows the attackers' rules, read from the other side
/// of the field.
pub proof fn defender_terms_mirror_attacker_terms(odds: WarOdds)
    ensures
        odds.defender_terms() == odds.mirrored().attacker_terms(),
{
    assert(odds.defender_terms() =~= odds.mirrored().attacker_terms());
}

} // verus!
