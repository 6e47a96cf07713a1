use tyria::endpoint::{Endpoint, StatusPolicy};
use tyria::request::{bearer_value, plan_request, request_url, Session};

#[test]
fn constant_paths_resolve() {
    assert_eq!(Endpoint::Account.path(), "/v2/account");
    assert_eq!(Endpoint::AccountCats.path(), "/v2/account/home/cats");
    assert_eq!(Endpoint::TokenInfo.path(), "/v2/tokeninfo");
    assert_eq!(Endpoint::CharacterNames.path(), "/v2/characters");
    assert_eq!(Endpoint::Exchange.path(), "/v2/commerce/exchange");
    assert_eq!(Endpoint::DailyAchievementsTomorrow.path(), "/v2/achievements/daily/tomorrow");
    assert_eq!(
        Endpoint::HistorySellTransactions.path(),
        "/v2/commerce/transactions/history/sells"
    );
}

#[test]
fn numeric_query_paths_resolve() {
    assert_eq!(Endpoint::Mastery(1).path(), "/v2/masteries?id=1");
    assert_eq!(Endpoint::Achievement(42).path(), "/v2/achievements?id=42");
    assert_eq!(Endpoint::Listing(-3).path(), "/v2/commerce/listings?id=-3");
    assert_eq!(Endpoint::Skills(vec![5516, 5517]).path(), "/v2/skills?ids=5516,5517");
    assert_eq!(
        Endpoint::AchievementCategories(vec![1, 2, 3]).path(),
        "/v2/achievements/categories?ids=1,2,3"
    );
}

#[test]
fn string_query_paths_resolve() {
    assert_eq!(Endpoint::Profession("Thief".to_string()).path(), "/v2/professions?id=Thief");
    assert_eq!(
        Endpoint::Races(vec!["Human".to_string(), "Sylvari".to_string(), "Norn".to_string()])
            .path(),
        "/v2/races?ids=Human,Sylvari,Norn"
    );
    assert_eq!(Endpoint::Legend("Legend1".to_string()).path(), "/v2/legends?id=Legend1");
}

#[test]
fn character_paths_resolve() {
    assert_eq!(Endpoint::Character("Hawke".to_string()).path(), "/v2/characters/Hawke");
    assert_eq!(
        Endpoint::CharacterBackstory("Hawke".to_string()).path(),
        "/v2/characters/Hawke/backstory"
    );
    assert_eq!(
        Endpoint::CharacterSpecializations("Hawke".to_string()).path(),
        "/v2/characters/Hawke/specializations"
    );
}

#[test]
fn quantity_paths_resolve() {
    assert_eq!(Endpoint::CoinExchange(10000).path(), "/v2/commerce/exchange/coins?quantity=10000");
    assert_eq!(Endpoint::GemExchange(50).path(), "/v2/commerce/exchange/gems?quantity=50");
}

#[test]
fn policies_declare_documented_status_sets() {
    assert_eq!(Endpoint::Mastery(1).policy(), StatusPolicy::PublicLookup);
    assert_eq!(Endpoint::Masteries(vec![1, 2]).policy(), StatusPolicy::PublicBatch);
    assert_eq!(Endpoint::Account.policy(), StatusPolicy::Authenticated);
    assert_eq!(Endpoint::TokenInfo.policy(), StatusPolicy::AuthLookup);
    assert_eq!(Endpoint::Character("A".to_string()).policy(), StatusPolicy::AuthLookup);
    assert_eq!(Endpoint::CharacterSab("A".to_string()).policy(), StatusPolicy::AuthLookup);
    assert_eq!(
        Endpoint::CharacterInventory("A".to_string()).policy(),
        StatusPolicy::AuthScopedLookup
    );
    assert_eq!(Endpoint::CoinExchange(1).policy(), StatusPolicy::QuantityExchange);

    assert_eq!(StatusPolicy::PublicLookup.valid_statuses(), vec![200]);
    assert_eq!(StatusPolicy::PublicLookup.invalid_statuses(), vec![404]);
    assert_eq!(StatusPolicy::PublicBatch.valid_statuses(), vec![200, 206]);
    assert_eq!(StatusPolicy::PublicBatch.invalid_statuses(), vec![404]);
    assert_eq!(StatusPolicy::Authenticated.valid_statuses(), vec![200]);
    assert_eq!(StatusPolicy::Authenticated.invalid_statuses(), vec![403]);
    assert_eq!(StatusPolicy::AuthLookup.invalid_statuses(), vec![404, 403]);
    assert_eq!(StatusPolicy::AuthScopedLookup.invalid_statuses(), vec![404, 403, 400]);
    assert_eq!(StatusPolicy::QuantityExchange.invalid_statuses(), vec![404, 400]);
}

#[test]
fn auth_is_required_exactly_by_authenticated_policies() {
    assert!(StatusPolicy::Authenticated.requires_auth());
    assert!(StatusPolicy::AuthLookup.requires_auth());
    assert!(StatusPolicy::AuthScopedLookup.requires_auth());
    assert!(!StatusPolicy::PublicLookup.requires_auth());
    assert!(!StatusPolicy::PublicBatch.requires_auth());
    assert!(!StatusPolicy::QuantityExchange.requires_auth());
}

#[test]
fn request_url_joins_origin_and_path() {
    assert_eq!(
        request_url(&Endpoint::Achievement(42)),
        "https://api.guildwars2.com/v2/achievements?id=42"
    );
}

#[test]
fn bearer_header_value() {
    assert_eq!(bearer_value("abc"), "Bearer abc");
}

#[test]
fn public_plan_carries_no_bearer() {
    let session = Session::new("es", None);
    let plan = plan_request(&session, &Endpoint::PetIds);
    assert_eq!(plan.url, "https://api.guildwars2.com/v2/pets");
    assert_eq!(plan.bearer, None);
    assert_eq!(plan.locale, "es");
    assert_eq!(plan.valid, vec![200]);
    assert_eq!(plan.invalid, vec![404]);
}

#[test]
fn authenticated_plan_carries_bearer_and_locale() {
    let session = Session::new("en", Some("sample-token".to_string()));
    let plan = plan_request(&session, &Endpoint::AccountWallet);
    assert_eq!(plan.url, "https://api.guildwars2.com/v2/account/wallet");
    assert_eq!(plan.bearer.as_deref(), Some("Bearer sample-token"));
    assert_eq!(plan.locale, "en");
    assert_eq!(plan.valid, vec![200]);
    assert_eq!(plan.invalid, vec![403]);
}
