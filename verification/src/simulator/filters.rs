//! The team filters of the classroom simulator: each team flags the users
//! its rule picks out, with the action type and reason of that rule.

use vstd::prelude::*;
use crate::messages::User;
use crate::text::{begins_with, lowercase, occurs_in, str_contains, str_eq, str_starts_with, to_lowercase};

verus! {

/// Result of applying a filter to a user.
pub struct FilterMatch {
    pub action_type: &'static str,
    pub reason: &'static str,
}

/// Team-specific filtering logic.
pub trait TeamFilter {
    /// What the filter decides for a user: the action type and reason when
    /// it flags the user.
    spec fn verdict(&self, user: User) -> Option<(Seq<char>, Seq<char>)>;

    /// Apply the filter to a user.
    fn matches(&self, user: &User) -> (r: Option<FilterMatch>)
        ensures
            match r {
                Some(m) => self.verdict(*user) == Some((m.action_type@, m.reason@)),
                None => self.verdict(*user) is None,
            };
}

/// `s` contains one of the keywords.
pub open spec fn mentions_any(s: Seq<char>, keywords: Seq<Seq<char>>) -> bool {
    exists|i: int| 0 <= i < keywords.len() && occurs_in(s, #[trigger] keywords[i])
}

/// Keywords of the financial sector.
pub open spec fn financial_keywords() -> Seq<Seq<char>> {
    seq!["bank"@, "financ"@, "insur"@, "invest"@, "account"@, "capital"@]
}

/// Keywords of technology companies.
pub open spec fn tech_keywords() -> Seq<Seq<char>> {
    seq!["computer"@, "internet"@, "semiconductor"@, "telecom"@, "wireless"@]
}

/// Keywords of healthcare.
pub open spec fn health_keywords() -> Seq<Seq<char>> {
    seq!["health"@, "hospital"@, "medical"@, "pharma"@, "biotech"@, "veterinary"@]
}

/// Whether `s` contains one of the keywords.
fn contains_any(s: &str, keywords: &[&str]) -> (r: bool)
    ensures
        r == exists|i: int| 0 <= i < keywords@.len() && occurs_in(s@, #[trigger] keywords@[i]@),
{
    let mut i: usize = 0;
    while i < keywords.len()
        invariant
            i <= keywords@.len(),
            forall|j: int| 0 <= j < i ==> !occurs_in(s@, #[trigger] keywords@[j]@),
        decreases keywords@.len() - i,
    {
        if str_contains(s, keywords[i]) {
            return true;
        }
        i = i + 1;
    }
    false
}

/// Team 1: email contains "hotmail", in any case.
pub struct Team1Filter;

impl TeamFilter for Team1Filter {
    open spec fn verdict(&self, user: User) -> Option<(Seq<char>, Seq<char>)> {
        if occurs_in(lowercase(user.email@), "hotmail"@) {
            Some(("CONTACT_CUSTOMER"@, "LEGACY_EMAIL_PROVIDER"@))
        } else {
            None
        }
    }

    fn matches(&self, user: &User) -> (r: Option<FilterMatch>) {
        if str_contains(to_lowercase(user.email.as_str()).as_str(), "hotmail") {
            Some(FilterMatch { action_type: "CONTACT_CUSTOMER", reason: "LEGACY_EMAIL_PROVIDER" })
        } else {
            None
        }
    }
}

/// Team 2: credit card number starts with "37" (AMEX).
pub struct Team2Filter;

impl TeamFilter for Team2Filter {
    open spec fn verdict(&self, user: User) -> Option<(Seq<char>, Seq<char>)> {
        if begins_with(user.credit_card_number@, "37"@) {
            Some(("CREDIT_CARD_VERIFICATION"@, "AMEX_CARD"@))
        } else {
            None
        }
    }

    fn matches(&self, user: &User) -> (r: Option<FilterMatch>) {
        if str_starts_with(user.credit_card_number.as_str(), "37") {
            Some(FilterMatch { action_type: "CREDIT_CARD_VERIFICATION", reason: "AMEX_CARD" })
        } else {
            None
        }
    }
}

/// Team 3: industry mentions a financial keyword, in any case.
pub struct Team3Filter;

impl TeamFilter for Team3Filter {
    open spec fn verdict(&self, user: User) -> Option<(Seq<char>, Seq<char>)> {
        if mentions_any(lowercase(user.industry@), financial_keywords()) {
            Some(("SALES_LEAD"@, "FINANCIAL_SECTOR"@))
        } else {
            None
        }
    }

    fn matches(&self, user: &User) -> (r: Option<FilterMatch>) {
        let lower = to_lowercase(user.industry.as_str());
        let keywords: [&str; 6] = ["bank", "financ", "insur", "invest", "account", "capital"];
        assert(keywords@.map_values(|k: &str| k@) =~= financial_keywords());
        let hit = contains_any(lower.as_str(), &keywords);
        proof {
            if hit {
                let i = choose|i: int| 0 <= i < keywords@.len() && occurs_in(lower@, #[trigger] keywords@[i]@);
                assert(keywords@.map_values(|k: &str| k@)[i] == keywords@[i]@);
            } else {
                assert forall|i: int| 0 <= i < financial_keywords().len() implies !occurs_in(lower@, #[trigger] financial_keywords()[i]) by {
                    assert(keywords@.map_values(|k: &str| k@)[i] == keywords@[i]@);
                }
            }
        }
        if hit {
            Some(FilterMatch { action_type: "SALES_LEAD", reason: "FINANCIAL_SECTOR" })
        } else {
            None
        }
    }
}

/// Team 4: industry mentions a technology keyword, in any case.
pub struct Team4Filter;

impl TeamFilter for Team4Filter {
    open spec fn verdict(&self, user: User) -> Option<(Seq<char>, Seq<char>)> {
        if mentions_any(lowercase(user.industry@), tech_keywords()) {
            Some(("ACQUISITION_TARGET"@, "TECH_COMPANY"@))
        } else {
            None
        }
    }

    fn matches(&self, user: &User) -> (r: Option<FilterMatch>) {
        let lower = to_lowercase(user.industry.as_str());
        let keywords: [&str; 5] = ["computer", "internet", "semiconductor", "telecom", "wireless"];
        assert(keywords@.map_values(|k: &str| k@) =~= tech_keywords());
        let hit = contains_any(lower.as_str(), &keywords);
        proof {
            if hit {
                let i = choose|i: int| 0 <= i < keywords@.len() && occurs_in(lower@, #[trigger] keywords@[i]@);
                assert(keywords@.map_values(|k: &str| k@)[i] == keywords@[i]@);
            } else {
                assert forall|i: int| 0 <= i < tech_keywords().len() implies !occurs_in(lower@, #[trigger] tech_keywords()[i]) by {
                    assert(keywords@.map_values(|k: &str| k@)[i] == keywords@[i]@);
                }
            }
        }
        if hit {
            Some(FilterMatch { action_type: "ACQUISITION_TARGET", reason: "TECH_COMPANY" })
        } else {
            None
        }
    }
}

/// Team 5: industry mentions a healthcare keyword, in any case.
pub struct Team5Filter;

impl TeamFilter for Team5Filter {
    open spec fn verdict(&self, user: User) -> Option<(Seq<char>, Seq<char>)> {
        if mentions_any(lowercase(user.industry@), health_keywords()) {
            Some(("CONTACT_CUSTOMER"@, "HEALTHCARE_COMPLIANCE"@))
        } else {
            None
        }
    }

    fn matches(&self, user: &User) -> (r: Option<FilterMatch>) {
        let lower = to_lowercase(user.industry.as_str());
        let keywords: [&str; 6] = ["health", "hospital", "medical", "pharma", "biotech", "veterinary"];
        assert(keywords@.map_values(|k: &str| k@) =~= health_keywords());
        let hit = contains_any(lower.as_str(), &keywords);
        proof {
            if hit {
                let i = choose|i: int| 0 <= i < keywords@.len() && occurs_in(lower@, #[trigger] keywords@[i]@);
                assert(keywords@.map_values(|k: &str| k@)[i] == keywords@[i]@);
            } else {
                assert forall|i: int| 0 <= i < health_keywords().len() implies !occurs_in(lower@, #[trigger] health_keywords()[i]) by {
                    assert(keywords@.map_values(|k: &str| k@)[i] == keywords@[i]@);
                }
            }
        }
        if hit {
            Some(FilterMatch { action_type: "CONTACT_CUSTOMER", reason: "HEALTHCARE_COMPLIANCE" })
        } else {
            None
        }
    }
}

/// Team 6: profession is "engineer", in any case.
pub struct Team6Filter;

impl TeamFilter for Team6Filter {
    open spec fn verdict(&self, user: User) -> Option<(Seq<char>, Seq<char>)> {
        if lowercase(user.profession@) == "engineer"@ {
            Some(("HIRE_CUSTOMER"@, "IS_ENGINEER"@))
        } else {
            None
        }
    }

    fn matches(&self, user: &User) -> (r: Option<FilterMatch>) {
        if str_eq(to_lowercase(user.profession.as_str()).as_str(), "engineer") {
            Some(FilterMatch { action_type: "HIRE_CUSTOMER", reason: "IS_ENGINEER" })
        } else {
            None
        }
    }
}

/// Team 7: a premium user with credit above 10.
pub struct Team7Filter;

impl TeamFilter for Team7Filter {
    open spec fn verdict(&self, user: User) -> Option<(Seq<char>, Seq<char>)> {
        if user.premium && user.credit > 10 {
            Some(("CONTACT_CUSTOMER"@, "VIP_USER"@))
        } else {
            None
        }
    }

    fn matches(&self, user: &User) -> (r: Option<FilterMatch>) {
        if user.premium && user.credit > 10 {
            Some(FilterMatch { action_type: "CONTACT_CUSTOMER", reason: "VIP_USER" })
        } else {
            None
        }
    }
}

/// Team 8: credit below -15.
pub struct Team8Filter;

impl TeamFilter for Team8Filter {
    open spec fn verdict(&self, user: User) -> Option<(Seq<char>, Seq<char>)> {
        if user.credit < -15 {
            Some(("CONTACT_CUSTOMER"@, "CRITICAL_DEBT"@))
        } else {
            None
        }
    }

    fn matches(&self, user: &User) -> (r: Option<FilterMatch>) {
        if user.credit < -15 {
            Some(FilterMatch { action_type: "CONTACT_CUSTOMER", reason: "CRITICAL_DEBT" })
        } else {
            None
        }
    }
}

/// Team 9: time zone starts with "Asia/".
pub struct Team9Filter;

impl TeamFilter for Team9Filter {
    open spec fn verdict(&self, user: User) -> Option<(Seq<char>, Seq<char>)> {
        if begins_with(user.time_zone@, "Asia/"@) {
            Some(("CONTACT_CUSTOMER"@, "APAC_EXPANSION"@))
        } else {
            None
        }
    }

    fn matches(&self, user: &User) -> (r: Option<FilterMatch>) {
        if str_starts_with(user.time_zone.as_str(), "Asia/") {
            Some(FilterMatch { action_type: "CONTACT_CUSTOMER", reason: "APAC_EXPANSION" })
        } else {
            None
        }
    }
}

/// Team 10: user agent contains "MSIE" or "Trident".
pub struct Team10Filter;

impl TeamFilter for Team10Filter {
    open spec fn verdict(&self, user: User) -> Option<(Seq<char>, Seq<char>)> {
        if occurs_in(user.user_agent@, "MSIE"@) || occurs_in(user.user_agent@, "Trident"@) {
            Some(("CONTACT_CUSTOMER"@, "LEGACY_BROWSER"@))
        } else {
            None
        }
    }

    fn matches(&self, user: &User) -> (r: Option<FilterMatch>) {
        if str_contains(user.user_agent.as_str(), "MSIE") || str_contains(user.user_agent.as_str(), "Trident") {
            Some(FilterMatch { action_type: "CONTACT_CUSTOMER", reason: "LEGACY_BROWSER" })
        } else {
            None
        }
    }
}

/// Team 11: time zone starts with "Europe/".
pub struct Team11Filter;

impl TeamFilter for Team11Filter {
    open spec fn verdict(&self, user: User) -> Option<(Seq<char>, Seq<char>)> {
        if begins_with(user.time_zone@, "Europe/"@) {
            Some(("TRIGGER_GDPR_COMPLIANCE"@, "IN_EUROPE"@))
        } else {
            None
        }
    }

    fn matches(&self, user: &User) -> (r: Option<FilterMatch>) {
        if str_starts_with(user.time_zone.as_str(), "Europe/") {
            Some(FilterMatch { action_type: "TRIGGER_GDPR_COMPLIANCE", reason: "IN_EUROPE" })
        } else {
            None
        }
    }
}

/// Team 12: field is "IT" or "Technology", in any case.
pub struct Team12Filter;

impl TeamFilter for Team12Filter {
    open spec fn verdict(&self, user: User) -> Option<(Seq<char>, Seq<char>)> {
        if lowercase(user.field@) == "it"@ || lowercase(user.field@) == "technology"@ {
            Some(("HIRE_CUSTOMER"@, "TECH_PROFESSIONAL"@))
        } else {
            None
        }
    }

    fn matches(&self, user: &User) -> (r: Option<FilterMatch>) {
        let lower = to_lowercase(user.field.as_str());
        if str_eq(lower.as_str(), "it") || str_eq(lower.as_str(), "technology") {
            Some(FilterMatch { action_type: "HIRE_CUSTOMER", reason: "TECH_PROFESSIONAL" })
        } else {
            None
        }
    }
}

/// Team 13: avatar contains "example.org" or does not start with "https://".
pub struct Team13Filter;

impl TeamFilter for Team13Filter {
    open spec fn verdict(&self, user: User) -> Option<(Seq<char>, Seq<char>)> {
        if occurs_in(user.avatar@, "example.org"@) || !begins_with(user.avatar@, "https://"@) {
            Some(("CONTACT_CUSTOMER"@, "INVALID_AVATAR"@))
        } else {
            None
        }
    }

    fn matches(&self, user: &User) -> (r: Option<FilterMatch>) {
        if str_contains(user.avatar.as_str(), "example.org") || !str_starts_with(user.avatar.as_str(), "https://") {
            Some(FilterMatch { action_type: "CONTACT_CUSTOMER", reason: "INVALID_AVATAR" })
        } else {
            None
        }
    }
}

/// Team 14: name is "John Doe".
pub struct Team14Filter;

impl TeamFilter for Team14Filter {
    open spec fn verdict(&self, user: User) -> Option<(Seq<char>, Seq<char>)> {
        if user.name@ == "John Doe"@ {
            Some(("BAN_CUSTOMER"@, "SUSPICIOUS_NAME"@))
        } else {
            None
        }
    }

    fn matches(&self, user: &User) -> (r: Option<FilterMatch>) {
        if str_eq(user.name.as_str(), "John Doe") {
            Some(FilterMatch { action_type: "BAN_CUSTOMER", reason: "SUSPICIOUS_NAME" })
        } else {
            None
        }
    }
}

/// Team 15: pack is "free".
pub struct Team15Filter;

impl TeamFilter for Team15Filter {
    open spec fn verdict(&self, user: User) -> Option<(Seq<char>, Seq<char>)> {
        if user.pack@ == "free"@ {
            Some(("CONTACT_CUSTOMER"@, "UPGRADE_FREE"@))
        } else {
            None
        }
    }

    fn matches(&self, user: &User) -> (r: Option<FilterMatch>) {
        if str_eq(user.pack.as_str(), "free") {
            Some(FilterMatch { action_type: "CONTACT_CUSTOMER", reason: "UPGRADE_FREE" })
        } else {
            None
        }
    }
}

/// The filter of a team, picked by its number.
pub struct NumberedFilter {
    pub team_number: u32,
}

/// What the filter of team `n` decides for a user.
pub open spec fn team_verdict(n: u32, user: User) -> Option<(Seq<char>, Seq<char>)> {
    if n == 1 {
        Team1Filter.verdict(user)
    } else if n == 2 {
        Team2Filter.verdict(user)
    } else if n == 3 {
        Team3Filter.verdict(user)
    } else if n == 4 {
        Team4Filter.verdict(user)
    } else if n == 5 {
        Team5Filter.verdict(user)
    } else if n == 6 {
        Team6Filter.verdict(user)
    } else if n == 7 {
        Team7Filter.verdict(user)
    } else if n == 8 {
        Team8Filter.verdict(user)
    } else if n == 9 {
        Team9Filter.verdict(user)
    } else if n == 10 {
        Team10Filter.verdict(user)
    } else if n == 11 {
        Team11Filter.verdict(user)
    } else if n == 12 {
        Team12Filter.verdict(user)
    } else if n == 13 {
        Team13Filter.verdict(user)
    } else if n == 14 {
        Team14Filter.verdict(user)
    } else {
        Team15Filter.verdict(user)
    }
}

impl TeamFilter for NumberedFilter {
    open spec fn verdict(&self, user: User) -> Option<(Seq<char>, Seq<char>)> {
        team_verdict(self.team_number, user)
    }

    fn matches(&self, user: &User) -> (r: Option<FilterMatch>) {
        match self.team_number {
            1 => Team1Filter.matches(user),
            2 => Team2Filter.matches(user),
            3 => Team3Filter.matches(user),
            4 => Team4Filter.matches(user),
            5 => Team5Filter.matches(user),
            6 => Team6Filter.matches(user),
            7 => Team7Filter.matches(user),
            8 => Team8Filter.matches(user),
            9 => Team9Filter.matches(user),
            10 => Team10Filter.matches(user),
            11 => Team11Filter.matches(user),
            12 => Team12Filter.matches(user),
            13 => Team13Filter.matches(user),
            14 => Team14Filter.matches(user),
            _ => Team15Filter.matches(user),
        }
    }
}

/// The filter for a team number (1-15).
pub fn get_filter(team_number: u32) -> (r: NumberedFilter)
    requires
        1 <= team_number <= 15,
    ensures
        r.team_number == team_number,
{
    NumberedFilter { team_number }
}

} // verus!
