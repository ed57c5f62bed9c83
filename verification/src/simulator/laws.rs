//! What each team's filter flags, stated over the user's fields: which
//! users it flags, with which action type and reason, and which it leaves.

use vstd::prelude::*;
use crate::messages::User;
use crate::simulator::filters::{
    NumberedFilter, TeamFilter, Team1Filter, Team2Filter, Team3Filter, Team4Filter, Team5Filter, Team6Filter, Team7Filter, Team8Filter, Team9Filter, Team10Filter, Team11Filter, Team12Filter, Team13Filter, Team14Filter, Team15Filter, financial_keywords, health_keywords, mentions_any, tech_keywords,
};
use crate::text::{begins_with, lowercase, occurs_in};

verus! {

/// Team 1: an email mentioning "hotmail", in any case, is flagged as a legacy provider; no other is.
pub proof fn lemma_team1_filter(user: User)
    ensures
        occurs_in(lowercase(user.email@), "hotmail"@) ==> Team1Filter.verdict(user) == Some(("CONTACT_CUSTOMER"@, "LEGACY_EMAIL_PROVIDER"@)),
        !occurs_in(lowercase(user.email@), "hotmail"@) ==> Team1Filter.verdict(user) is None,
        Team1Filter.verdict(user) is Some ==> Team1Filter.verdict(user) == Some(("CONTACT_CUSTOMER"@, "LEGACY_EMAIL_PROVIDER"@)),
{
}

/// Team 2: a card number starting with "37" is flagged as AMEX; no other is.
pub proof fn lemma_team2_filter(user: User)
    ensures
        begins_with(user.credit_card_number@, "37"@) ==> Team2Filter.verdict(user) == Some(("CREDIT_CARD_VERIFICATION"@, "AMEX_CARD"@)),
        !begins_with(user.credit_card_number@, "37"@) ==> Team2Filter.verdict(user) is None,
        Team2Filter.verdict(user) is Some ==> Team2Filter.verdict(user) == Some(("CREDIT_CARD_VERIFICATION"@, "AMEX_CARD"@)),
{
}

/// Team 3: an industry naming a financial keyword, in any case, is a sales lead; no other is.
pub proof fn lemma_team3_filter(user: User)
    ensures
        occurs_in(lowercase(user.industry@), "bank"@) ==> Team3Filter.verdict(user) == Some(("SALES_LEAD"@, "FINANCIAL_SECTOR"@)),
        occurs_in(lowercase(user.industry@), "financ"@) ==> Team3Filter.verdict(user) == Some(("SALES_LEAD"@, "FINANCIAL_SECTOR"@)),
        occurs_in(lowercase(user.industry@), "insur"@) ==> Team3Filter.verdict(user) == Some(("SALES_LEAD"@, "FINANCIAL_SECTOR"@)),
        occurs_in(lowercase(user.industry@), "invest"@) ==> Team3Filter.verdict(user) == Some(("SALES_LEAD"@, "FINANCIAL_SECTOR"@)),
        occurs_in(lowercase(user.industry@), "account"@) ==> Team3Filter.verdict(user) == Some(("SALES_LEAD"@, "FINANCIAL_SECTOR"@)),
        occurs_in(lowercase(user.industry@), "capital"@) ==> Team3Filter.verdict(user) == Some(("SALES_LEAD"@, "FINANCIAL_SECTOR"@)),
        (!occurs_in(lowercase(user.industry@), "bank"@) && !occurs_in(lowercase(user.industry@), "financ"@) && !occurs_in(lowercase(user.industry@), "insur"@) && !occurs_in(lowercase(user.industry@), "invest"@) && !occurs_in(lowercase(user.industry@), "account"@) && !occurs_in(lowercase(user.industry@), "capital"@)) ==> Team3Filter.verdict(user) is None,
        Team3Filter.verdict(user) is Some ==> Team3Filter.verdict(user) == Some(("SALES_LEAD"@, "FINANCIAL_SECTOR"@)),
{
    assert(financial_keywords()[0] == "bank"@);
    assert(financial_keywords()[1] == "financ"@);
    assert(financial_keywords()[2] == "insur"@);
    assert(financial_keywords()[3] == "invest"@);
    assert(financial_keywords()[4] == "account"@);
    assert(financial_keywords()[5] == "capital"@);
    if !mentions_any(lowercase(user.industry@), financial_keywords()) {} else {
        let i = choose|i: int| 0 <= i < financial_keywords().len() && occurs_in(lowercase(user.industry@), #[trigger] financial_keywords()[i]);
        assert(0 <= i < 6);
    }
}

/// Team 4: an industry naming a technology keyword, in any case, is an acquisition target; no other is.
pub proof fn lemma_team4_filter(user: User)
    ensures
        occurs_in(lowercase(user.industry@), "computer"@) ==> Team4Filter.verdict(user) == Some(("ACQUISITION_TARGET"@, "TECH_COMPANY"@)),
        occurs_in(lowercase(user.industry@), "internet"@) ==> Team4Filter.verdict(user) == Some(("ACQUISITION_TARGET"@, "TECH_COMPANY"@)),
        occurs_in(lowercase(user.industry@), "semiconductor"@) ==> Team4Filter.verdict(user) == Some(("ACQUISITION_TARGET"@, "TECH_COMPANY"@)),
        occurs_in(lowercase(user.industry@), "telecom"@) ==> Team4Filter.verdict(user) == Some(("ACQUISITION_TARGET"@, "TECH_COMPANY"@)),
        occurs_in(lowercase(user.industry@), "wireless"@) ==> Team4Filter.verdict(user) == Some(("ACQUISITION_TARGET"@, "TECH_COMPANY"@)),
        (!occurs_in(lowercase(user.industry@), "computer"@) && !occurs_in(lowercase(user.industry@), "internet"@) && !occurs_in(lowercase(user.industry@), "semiconductor"@) && !occurs_in(lowercase(user.industry@), "telecom"@) && !occurs_in(lowercase(user.industry@), "wireless"@)) ==> Team4Filter.verdict(user) is None,
        Team4Filter.verdict(user) is Some ==> Team4Filter.verdict(user) == Some(("ACQUISITION_TARGET"@, "TECH_COMPANY"@)),
{
    assert(tech_keywords()[0] == "computer"@);
    assert(tech_keywords()[1] == "internet"@);
    assert(tech_keywords()[2] == "semiconductor"@);
    assert(tech_keywords()[3] == "telecom"@);
    assert(tech_keywords()[4] == "wireless"@);
    if !mentions_any(lowercase(user.industry@), tech_keywords()) {} else {
        let i = choose|i: int| 0 <= i < tech_keywords().len() && occurs_in(lowercase(user.industry@), #[trigger] tech_keywords()[i]);
        assert(0 <= i < 5);
    }
}

/// Team 5: an industry naming a healthcare keyword, in any case, is flagged for compliance; no other is.
pub proof fn lemma_team5_filter(user: User)
    ensures
        occurs_in(lowercase(user.industry@), "health"@) ==> Team5Filter.verdict(user) == Some(("CONTACT_CUSTOMER"@, "HEALTHCARE_COMPLIANCE"@)),
        occurs_in(lowercase(user.industry@), "hospital"@) ==> Team5Filter.verdict(user) == Some(("CONTACT_CUSTOMER"@, "HEALTHCARE_COMPLIANCE"@)),
        occurs_in(lowercase(user.industry@), "medical"@) ==> Team5Filter.verdict(user) == Some(("CONTACT_CUSTOMER"@, "HEALTHCARE_COMPLIANCE"@)),
        occurs_in(lowercase(user.industry@), "pharma"@) ==> Team5Filter.verdict(user) == Some(("CONTACT_CUSTOMER"@, "HEALTHCARE_COMPLIANCE"@)),
        occurs_in(lowercase(user.industry@), "biotech"@) ==> Team5Filter.verdict(user) == Some(("CONTACT_CUSTOMER"@, "HEALTHCARE_COMPLIANCE"@)),
        occurs_in(lowercase(user.industry@), "veterinary"@) ==> Team5Filter.verdict(user) == Some(("CONTACT_CUSTOMER"@, "HEALTHCARE_COMPLIANCE"@)),
        (!occurs_in(lowercase(user.industry@), "health"@) && !occurs_in(lowercase(user.industry@), "hospital"@) && !occurs_in(lowercase(user.industry@), "medical"@) && !occurs_in(lowercase(user.industry@), "pharma"@) && !occurs_in(lowercase(user.industry@), "biotech"@) && !occurs_in(lowercase(user.industry@), "veterinary"@)) ==> Team5Filter.verdict(user) is None,
        Team5Filter.verdict(user) is Some ==> Team5Filter.verdict(user) == Some(("CONTACT_CUSTOMER"@, "HEALTHCARE_COMPLIANCE"@)),
{
    assert(health_keywords()[0] == "health"@);
    assert(health_keywords()[1] == "hospital"@);
    assert(health_keywords()[2] == "medical"@);
    assert(health_keywords()[3] == "pharma"@);
    assert(health_keywords()[4] == "biotech"@);
    assert(health_keywords()[5] == "veterinary"@);
    if !mentions_any(lowercase(user.industry@), health_keywords()) {} else {
        let i = choose|i: int| 0 <= i < health_keywords().len() && occurs_in(lowercase(user.industry@), #[trigger] health_keywords()[i]);
        assert(0 <= i < 6);
    }
}

/// Team 6: an engineer, in any case, is flagged for hiring; no one else is.
pub proof fn lemma_team6_filter(user: User)
    ensures
        lowercase(user.profession@) == "engineer"@ ==> Team6Filter.verdict(user) == Some(("HIRE_CUSTOMER"@, "IS_ENGINEER"@)),
        lowercase(user.profession@) != "engineer"@ ==> Team6Filter.verdict(user) is None,
        Team6Filter.verdict(user) is Some ==> Team6Filter.verdict(user) == Some(("HIRE_CUSTOMER"@, "IS_ENGINEER"@)),
{
}

/// Team 7: a premium user with credit above ten is a VIP; no other user is.
pub proof fn lemma_team7_filter(user: User)
    ensures
        (user.premium && user.credit > 10) ==> Team7Filter.verdict(user) == Some(("CONTACT_CUSTOMER"@, "VIP_USER"@)),
        (!user.premium || user.credit <= 10) ==> Team7Filter.verdict(user) is None,
        Team7Filter.verdict(user) is Some ==> Team7Filter.verdict(user) == Some(("CONTACT_CUSTOMER"@, "VIP_USER"@)),
{
}

/// Team 8: a credit below minus fifteen is critical debt; no other is.
pub proof fn lemma_team8_filter(user: User)
    ensures
        user.credit < -15 ==> Team8Filter.verdict(user) == Some(("CONTACT_CUSTOMER"@, "CRITICAL_DEBT"@)),
        user.credit >= -15 ==> Team8Filter.verdict(user) is None,
        Team8Filter.verdict(user) is Some ==> Team8Filter.verdict(user) == Some(("CONTACT_CUSTOMER"@, "CRITICAL_DEBT"@)),
{
}

/// Team 9: a time zone in Asia is flagged for expansion; no other is.
pub proof fn lemma_team9_filter(user: User)
    ensures
        begins_with(user.time_zone@, "Asia/"@) ==> Team9Filter.verdict(user) == Some(("CONTACT_CUSTOMER"@, "APAC_EXPANSION"@)),
        !begins_with(user.time_zone@, "Asia/"@) ==> Team9Filter.verdict(user) is None,
        Team9Filter.verdict(user) is Some ==> Team9Filter.verdict(user) == Some(("CONTACT_CUSTOMER"@, "APAC_EXPANSION"@)),
{
}

/// Team 10: a user agent naming "MSIE" or "Trident" is a legacy browser; no other is.
pub proof fn lemma_team10_filter(user: User)
    ensures
        occurs_in(user.user_agent@, "MSIE"@) ==> Team10Filter.verdict(user) == Some(("CONTACT_CUSTOMER"@, "LEGACY_BROWSER"@)),
        occurs_in(user.user_agent@, "Trident"@) ==> Team10Filter.verdict(user) == Some(("CONTACT_CUSTOMER"@, "LEGACY_BROWSER"@)),
        (!occurs_in(user.user_agent@, "MSIE"@) && !occurs_in(user.user_agent@, "Trident"@)) ==> Team10Filter.verdict(user) is None,
        Team10Filter.verdict(user) is Some ==> Team10Filter.verdict(user) == Some(("CONTACT_CUSTOMER"@, "LEGACY_BROWSER"@)),
{
}

/// Team 11: a time zone in Europe triggers GDPR compliance; no other does.
pub proof fn lemma_team11_filter(user: User)
    ensures
        begins_with(user.time_zone@, "Europe/"@) ==> Team11Filter.verdict(user) == Some(("TRIGGER_GDPR_COMPLIANCE"@, "IN_EUROPE"@)),
        !begins_with(user.time_zone@, "Europe/"@) ==> Team11Filter.verdict(user) is None,
        Team11Filter.verdict(user) is Some ==> Team11Filter.verdict(user) == Some(("TRIGGER_GDPR_COMPLIANCE"@, "IN_EUROPE"@)),
{
}

/// Team 12: a field of "IT" or "Technology", in any case, is a tech professional; no other is.
pub proof fn lemma_team12_filter(user: User)
    ensures
        lowercase(user.field@) == "it"@ ==> Team12Filter.verdict(user) == Some(("HIRE_CUSTOMER"@, "TECH_PROFESSIONAL"@)),
        lowercase(user.field@) == "technology"@ ==> Team12Filter.verdict(user) == Some(("HIRE_CUSTOMER"@, "TECH_PROFESSIONAL"@)),
        (lowercase(user.field@) != "it"@ && lowercase(user.field@) != "technology"@) ==> Team12Filter.verdict(user) is None,
        Team12Filter.verdict(user) is Some ==> Team12Filter.verdict(user) == Some(("HIRE_CUSTOMER"@, "TECH_PROFESSIONAL"@)),
{
}

/// Team 13: an avatar on example.org or not served over https is invalid; no other is.
pub proof fn lemma_team13_filter(user: User)
    ensures
        occurs_in(user.avatar@, "example.org"@) ==> Team13Filter.verdict(user) == Some(("CONTACT_CUSTOMER"@, "INVALID_AVATAR"@)),
        !begins_with(user.avatar@, "https://"@) ==> Team13Filter.verdict(user) == Some(("CONTACT_CUSTOMER"@, "INVALID_AVATAR"@)),
        (!occurs_in(user.avatar@, "example.org"@) && begins_with(user.avatar@, "https://"@)) ==> Team13Filter.verdict(user) is None,
        Team13Filter.verdict(user) is Some ==> Team13Filter.verdict(user) == Some(("CONTACT_CUSTOMER"@, "INVALID_AVATAR"@)),
{
}

/// Team 14: the name "John Doe" is suspicious; no other is.
pub proof fn lemma_team14_filter(user: User)
    ensures
        user.name@ == "John Doe"@ ==> Team14Filter.verdict(user) == Some(("BAN_CUSTOMER"@, "SUSPICIOUS_NAME"@)),
        user.name@ != "John Doe"@ ==> Team14Filter.verdict(user) is None,
        Team14Filter.verdict(user) is Some ==> Team14Filter.verdict(user) == Some(("BAN_CUSTOMER"@, "SUSPICIOUS_NAME"@)),
{
}

/// Team 15: the free pack is flagged for an upgrade; no other is.
pub proof fn lemma_team15_filter(user: User)
    ensures
        user.pack@ == "free"@ ==> Team15Filter.verdict(user) == Some(("CONTACT_CUSTOMER"@, "UPGRADE_FREE"@)),
        user.pack@ != "free"@ ==> Team15Filter.verdict(user) is None,
        Team15Filter.verdict(user) is Some ==> Team15Filter.verdict(user) == Some(("CONTACT_CUSTOMER"@, "UPGRADE_FREE"@)),
{
}

/// The filter picked by a team number decides as that team's own filter.
pub proof fn lemma_numbered_filter_is_the_teams(user: User)
    ensures
        (NumberedFilter { team_number: 1 }).verdict(user) == Team1Filter.verdict(user),
        (NumberedFilter { team_number: 2 }).verdict(user) == Team2Filter.verdict(user),
        (NumberedFilter { team_number: 3 }).verdict(user) == Team3Filter.verdict(user),
        (NumberedFilter { team_number: 4 }).verdict(user) == Team4Filter.verdict(user),
        (NumberedFilter { team_number: 5 }).verdict(user) == Team5Filter.verdict(user),
        (NumberedFilter { team_number: 6 }).verdict(user) == Team6Filter.verdict(user),
        (NumberedFilter { team_number: 7 }).verdict(user) == Team7Filter.verdict(user),
        (NumberedFilter { team_number: 8 }).verdict(user) == Team8Filter.verdict(user),
        (NumberedFilter { team_number: 9 }).verdict(user) == Team9Filter.verdict(user),
        (NumberedFilter { team_number: 10 }).verdict(user) == Team10Filter.verdict(user),
        (NumberedFilter { team_number: 11 }).verdict(user) == Team11Filter.verdict(user),
        (NumberedFilter { team_number: 12 }).verdict(user) == Team12Filter.verdict(user),
        (NumberedFilter { team_number: 13 }).verdict(user) == Team13Filter.verdict(user),
        (NumberedFilter { team_number: 14 }).verdict(user) == Team14Filter.verdict(user),
        (NumberedFilter { team_number: 15 }).verdict(user) == Team15Filter.verdict(user),
{
}

} // verus!
