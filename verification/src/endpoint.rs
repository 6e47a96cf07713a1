//! The endpoint table: every remote operation the client knows, as one
//! closed enumeration, with its path template, its parameter encoding, and
//! the status sets that calls against it declare.

use vstd::prelude::*;

use crate::digits::spec_dec_int;
use crate::params::{
    number_to_param, numbers_to_param, spec_dec_list, spec_join, string_to_param,
    string_vec_to_param,
};
use crate::status::{spec_classify, StatusClass};

verus! {

/// The query fragment for a single numeric identifier.
pub open spec fn spec_id_param(id: int) -> Seq<char> {
    "id"@ + seq!['='] + spec_dec_int(id)
}

/// The query fragment for a list of numeric identifiers.
pub open spec fn spec_ids_param(ids: Seq<i32>) -> Seq<char> {
    "ids"@ + seq!['='] + spec_dec_list(ids)
}

/// The query fragment for a single string identifier.
pub open spec fn spec_id_str_param(id: Seq<char>) -> Seq<char> {
    "id"@ + seq!['='] + id
}

/// The query fragment for a list of string identifiers.
pub open spec fn spec_ids_str_param(ids: Seq<Seq<char>>) -> Seq<char> {
    "ids"@ + seq!['='] + spec_join(ids)
}

/// The query fragment for an exchange quantity.
pub open spec fn spec_quantity_param(quantity: int) -> Seq<char> {
    "quantity"@ + seq!['='] + spec_dec_int(quantity)
}

/// The views of a list of owned strings.
pub open spec fn spec_views(items: Seq<String>) -> Seq<Seq<char>> {
    items.map_values(|s: String| s@)
}

fn query_num(base: &str, id: i32) -> (r: String)
    ensures
        r@ == base@ + spec_id_param(id as int),
{
    String::from_str(base).concat(number_to_param("id", id).as_str())
}

fn query_nums(base: &str, ids: &Vec<i32>) -> (r: String)
    ensures
        r@ == base@ + spec_ids_param(ids@),
{
    String::from_str(base).concat(numbers_to_param("ids", ids).as_str())
}

fn query_str(base: &str, id: &str) -> (r: String)
    ensures
        r@ == base@ + spec_id_str_param(id@),
{
    String::from_str(base).concat(string_to_param("id", id).as_str())
}

fn query_strs(base: &str, ids: &Vec<String>) -> (r: String)
    ensures
        r@ == base@ + spec_ids_str_param(spec_views(ids@)),
{
    String::from_str(base).concat(string_vec_to_param("ids", ids).as_str())
}

fn query_quantity(base: &str, quantity: i32) -> (r: String)
    ensures
        r@ == base@ + spec_quantity_param(quantity as int),
{
    String::from_str(base).concat(number_to_param("quantity", quantity).as_str())
}

fn character_path(name: &str) -> (r: String)
    ensures
        r@ == "/v2/characters/"@ + name@,
{
    String::from_str("/v2/characters/").concat(name)
}

fn character_sub_path(name: &str, suffix: &str) -> (r: String)
    ensures
        r@ == "/v2/characters/"@ + name@ + suffix@,
{
    String::from_str("/v2/characters/").concat(name).concat(suffix)
}

/// The combinations of status sets that endpoints declare. Every endpoint
/// of the catalog declares one of these six.
#[derive(Clone, Copy, Debug, PartialEq, Eq, Structural)]
pub enum StatusPolicy {
    /// Public lookup: 200 succeeds; 404 is the documented failure.
    PublicLookup,
    /// Public batch lookup: 200 and 206 (a partial batch) succeed; 404 is
    /// the documented failure.
    PublicBatch,
    /// Authenticated listing: 200 succeeds; 403 (missing or insufficient
    /// token) is the documented failure.
    Authenticated,
    /// Authenticated lookup: 200 succeeds; 404 and 403 are documented.
    AuthLookup,
    /// Authenticated lookup with input validation: 200 succeeds; 404, 403
    /// and 400 are documented.
    AuthScopedLookup,
    /// Currency exchange: 200 succeeds; 404 and 400 are documented.
    QuantityExchange,
}

/// The statuses a policy declares valid, in declaration order.
pub open spec fn spec_valid_of(p: StatusPolicy) -> Seq<u16> {
    match p {
        StatusPolicy::PublicBatch => seq![200u16, 206u16],
        _ => seq![200u16],
    }
}

/// The statuses a policy declares as documented failures, in declaration
/// order.
pub open spec fn spec_invalid_of(p: StatusPolicy) -> Seq<u16> {
    match p {
        StatusPolicy::PublicLookup => seq![404u16],
        StatusPolicy::PublicBatch => seq![404u16],
        StatusPolicy::Authenticated => seq![403u16],
        StatusPolicy::AuthLookup => seq![404u16, 403u16],
        StatusPolicy::AuthScopedLookup => seq![404u16, 403u16, 400u16],
        StatusPolicy::QuantityExchange => seq![404u16, 400u16],
    }
}

/// Whether calls under a policy carry the bearer token.
pub open spec fn spec_requires_auth(p: StatusPolicy) -> bool {
    match p {
        StatusPolicy::Authenticated => true,
        StatusPolicy::AuthLookup => true,
        StatusPolicy::AuthScopedLookup => true,
        _ => false,
    }
}

impl StatusPolicy {
    /// The statuses this policy declares valid.
    pub fn valid_statuses(&self) -> (v: Vec<u16>)
        ensures
            v@ == spec_valid_of(*self),
    {
        let mut v: Vec<u16> = Vec::new();
        v.push(200);
        match self {
            StatusPolicy::PublicBatch => {
                v.push(206);
                assert(v@ =~= seq![200u16, 206u16]);
            },
            _ => {
                assert(v@ =~= seq![200u16]);
            },
        }
        v
    }

    /// The statuses this policy declares as documented failures.
    pub fn invalid_statuses(&self) -> (v: Vec<u16>)
        ensures
            v@ == spec_invalid_of(*self),
    {
        let mut v: Vec<u16> = Vec::new();
        match self {
            StatusPolicy::PublicLookup => {
                v.push(404);
                assert(v@ =~= seq![404u16]);
            },
            StatusPolicy::PublicBatch => {
                v.push(404);
                assert(v@ =~= seq![404u16]);
            },
            StatusPolicy::Authenticated => {
                v.push(403);
                assert(v@ =~= seq![403u16]);
            },
            StatusPolicy::AuthLookup => {
                v.push(404);
                v.push(403);
                assert(v@ =~= seq![404u16, 403u16]);
            },
            StatusPolicy::AuthScopedLookup => {
                v.push(404);
                v.push(403);
                v.push(400);
                assert(v@ =~= seq![404u16, 403u16, 400u16]);
            },
            StatusPolicy::QuantityExchange => {
                v.push(404);
                v.push(400);
                assert(v@ =~= seq![404u16, 400u16]);
            },
        }
        v
    }

    /// Whether calls under this policy carry the bearer token.
    pub fn requires_auth(&self) -> (b: bool)
        ensures
            b == spec_requires_auth(*self),
    {
        match self {
            StatusPolicy::Authenticated => true,
            StatusPolicy::AuthLookup => true,
            StatusPolicy::AuthScopedLookup => true,
            _ => false,
        }
    }
}

/// Sorts every status against every policy: a status is in a declared set
/// exactly when this table says so.
pub proof fn lemma_policy_membership(p: StatusPolicy, s: u16)
    ensures
        spec_valid_of(p).contains(s) <==> (s == 200 || (p == StatusPolicy::PublicBatch && s
            == 206)),
        spec_invalid_of(p).contains(s) <==> match p {
            StatusPolicy::PublicLookup => s == 404,
            StatusPolicy::PublicBatch => s == 404,
            StatusPolicy::Authenticated => s == 403,
            StatusPolicy::AuthLookup => s == 404 || s == 403,
            StatusPolicy::AuthScopedLookup => s == 404 || s == 403 || s == 400,
            StatusPolicy::QuantityExchange => s == 404 || s == 400,
        },
{
    match p {
        StatusPolicy::PublicLookup => {
            assert(spec_valid_of(p)[0] == 200);
            assert(spec_invalid_of(p)[0] == 404);
        },
        StatusPolicy::PublicBatch => {
            assert(spec_valid_of(p)[0] == 200);
            assert(spec_valid_of(p)[1] == 206);
            assert(spec_invalid_of(p)[0] == 404);
        },
        StatusPolicy::Authenticated => {
            assert(spec_valid_of(p)[0] == 200);
            assert(spec_invalid_of(p)[0] == 403);
        },
        StatusPolicy::AuthLookup => {
            assert(spec_valid_of(p)[0] == 200);
            assert(spec_invalid_of(p)[0] == 404);
            assert(spec_invalid_of(p)[1] == 403);
        },
        StatusPolicy::AuthScopedLookup => {
            assert(spec_valid_of(p)[0] == 200);
            assert(spec_invalid_of(p)[0] == 404);
            assert(spec_invalid_of(p)[1] == 403);
            assert(spec_invalid_of(p)[2] == 400);
        },
        StatusPolicy::QuantityExchange => {
            assert(spec_valid_of(p)[0] == 200);
            assert(spec_invalid_of(p)[0] == 404);
            assert(spec_invalid_of(p)[1] == 400);
        },
    }
}

/// Under a single-item lookup policy, a 200 response classifies as valid
/// and a 404 response as the documented failure.
pub proof fn lemma_single_lookup_statuses()
    ensures
        spec_classify(
            200,
            spec_valid_of(StatusPolicy::PublicLookup),
            spec_invalid_of(StatusPolicy::PublicLookup),
        ) == StatusClass::Valid,
        spec_classify(
            404,
            spec_valid_of(StatusPolicy::PublicLookup),
            spec_invalid_of(StatusPolicy::PublicLookup),
        ) == StatusClass::Invalid,
{
    lemma_policy_membership(StatusPolicy::PublicLookup, 200);
    lemma_policy_membership(StatusPolicy::PublicLookup, 404);
}

/// A complete (200) and a partial (206) batch result both classify as
/// valid under the batch policy: both are dispatched through the same
/// success path, never as an error.
pub proof fn lemma_partial_content_is_success()
    ensures
        spec_classify(
            200,
            spec_valid_of(StatusPolicy::PublicBatch),
            spec_invalid_of(StatusPolicy::PublicBatch),
        ) == StatusClass::Valid,
        spec_classify(
            206,
            spec_valid_of(StatusPolicy::PublicBatch),
            spec_invalid_of(StatusPolicy::PublicBatch),
        ) == StatusClass::Valid,
{
    lemma_policy_membership(StatusPolicy::PublicBatch, 200);
    lemma_policy_membership(StatusPolicy::PublicBatch, 206);
}

/// No policy declares a status outside 200, 206, 400, 403 and 404: any
/// other status, a 500 for one, classifies as unknown for every endpoint.
pub proof fn lemma_undeclared_status_unknown(p: StatusPolicy, s: u16)
    requires
        s != 200,
        s != 206,
        s != 400,
        s != 403,
        s != 404,
    ensures
        spec_classify(s, spec_valid_of(p), spec_invalid_of(p)) == StatusClass::Unknown,
{
    lemma_policy_membership(p, s);
}

/// One remote operation, together with the identifying parameter its path
/// template takes. The catalog is closed: templates are fixed at build
/// time and an unknown endpoint cannot be represented.
pub enum Endpoint {
    Account,
    AccountAchievements,
    AccountBank,
    AccountDungeons,
    AccountDyes,
    AccountFinishers,
    AccountCats,
    AccountNodes,
    AccountInventory,
    AccountMasteries,
    AccountMaterials,
    AccountMinis,
    AccountOutfits,
    AccountRaids,
    AccountRecipes,
    AccountSkins,
    AccountTitles,
    AccountWallet,
    TokenInfo,
    AchievementIds,
    Achievement(i32),
    Achievements(Vec<i32>),
    DailyAchievements,
    DailyAchievementsTomorrow,
    AchievementGroupIds,
    AchievementGroup(String),
    AchievementGroups(Vec<String>),
    AchievementCategoryIds,
    AchievementCategory(i32),
    AchievementCategories(Vec<i32>),
    CharacterNames,
    Character(String),
    CharacterBackstory(String),
    CharacterCore(String),
    CharacterCrafting(String),
    CharacterEquipment(String),
    CharacterHeropoints(String),
    CharacterInventory(String),
    CharacterRecipes(String),
    CharacterSab(String),
    CharacterSkills(String),
    CharacterSpecializations(String),
    CharacterTraining(String),
    Exchange,
    CoinExchange(i32),
    GemExchange(i32),
    ListingIds,
    Listing(i32),
    Listings(Vec<i32>),
    PricingIds,
    Pricing(i32),
    Pricings(Vec<i32>),
    CurrentBuyTransactions,
    CurrentSellTransactions,
    HistoryBuyTransactions,
    HistorySellTransactions,
    MasteryIds,
    Mastery(i32),
    Masteries(Vec<i32>),
    OutfitIds,
    Outfit(i32),
    Outfits(Vec<i32>),
    PetIds,
    Pet(i32),
    Pets(Vec<i32>),
    ProfessionIds,
    Profession(String),
    Professions(Vec<String>),
    RaceIds,
    Race(String),
    Races(Vec<String>),
    SpecializationIds,
    Specialization(i32),
    Specializations(Vec<i32>),
    SkillIds,
    Skill(i32),
    Skills(Vec<i32>),
    TraitIds,
    Trait(i32),
    Traits(Vec<i32>),
    LegendIds,
    Legend(String),
    Legends(Vec<String>),
}

/// The complete relative request path of an endpoint, query string
/// included, ready to be joined to the fixed origin.
pub open spec fn spec_path(e: Endpoint) -> Seq<char> {
    match e {
        Endpoint::Account => "/v2/account"@,
        Endpoint::AccountAchievements => "/v2/account/achievements"@,
        Endpoint::AccountBank => "/v2/account/bank"@,
        Endpoint::AccountDungeons => "/v2/account/dungeons"@,
        Endpoint::AccountDyes => "/v2/account/dyes"@,
        Endpoint::AccountFinishers => "/v2/account/finishers"@,
        Endpoint::AccountCats => "/v2/account/home/cats"@,
        Endpoint::AccountNodes => "/v2/account/home/nodes"@,
        Endpoint::AccountInventory => "/v2/account/inventory"@,
        Endpoint::AccountMasteries => "/v2/account/masteries"@,
        Endpoint::AccountMaterials => "/v2/account/materials"@,
        Endpoint::AccountMinis => "/v2/account/minis"@,
        Endpoint::AccountOutfits => "/v2/account/outfits"@,
        Endpoint::AccountRaids => "/v2/account/raids"@,
        Endpoint::AccountRecipes => "/v2/account/recipes"@,
        Endpoint::AccountSkins => "/v2/account/skins"@,
        Endpoint::AccountTitles => "/v2/account/titles"@,
        Endpoint::AccountWallet => "/v2/account/wallet"@,
        Endpoint::TokenInfo => "/v2/tokeninfo"@,
        Endpoint::AchievementIds => "/v2/achievements"@,
        Endpoint::Achievement(id) => "/v2/achievements?"@ + spec_id_param(id as int),
        Endpoint::Achievements(ids) => "/v2/achievements?"@ + spec_ids_param(ids@),
        Endpoint::DailyAchievements => "/v2/achievements/daily"@,
        Endpoint::DailyAchievementsTomorrow => "/v2/achievements/daily/tomorrow"@,
        Endpoint::AchievementGroupIds => "/v2/achievements/groups"@,
        Endpoint::AchievementGroup(id) => "/v2/achievements/groups?"@ + spec_id_str_param(id@),
        Endpoint::AchievementGroups(ids) => "/v2/achievements/groups?"@ + spec_ids_str_param(spec_views(ids@)),
        Endpoint::AchievementCategoryIds => "/v2/achievements/categories"@,
        Endpoint::AchievementCategory(id) => "/v2/achievements/categories?"@ + spec_id_param(id as int),
        Endpoint::AchievementCategories(ids) => "/v2/achievements/categories?"@ + spec_ids_param(ids@),
        Endpoint::CharacterNames => "/v2/characters"@,
        Endpoint::Character(name) => "/v2/characters/"@ + name@,
        Endpoint::CharacterBackstory(name) => "/v2/characters/"@ + name@ + "/backstory"@,
        Endpoint::CharacterCore(name) => "/v2/characters/"@ + name@ + "/core"@,
        Endpoint::CharacterCrafting(name) => "/v2/characters/"@ + name@ + "/crafting"@,
        Endpoint::CharacterEquipment(name) => "/v2/characters/"@ + name@ + "/equipment"@,
        Endpoint::CharacterHeropoints(name) => "/v2/characters/"@ + name@ + "/heropoints"@,
        Endpoint::CharacterInventory(name) => "/v2/characters/"@ + name@ + "/inventory"@,
        Endpoint::CharacterRecipes(name) => "/v2/characters/"@ + name@ + "/recipes"@,
        Endpoint::CharacterSab(name) => "/v2/characters/"@ + name@ + "/sab"@,
        Endpoint::CharacterSkills(name) => "/v2/characters/"@ + name@ + "/skills"@,
        Endpoint::CharacterSpecializations(name) => "/v2/characters/"@ + name@ + "/specializations"@,
        Endpoint::CharacterTraining(name) => "/v2/characters/"@ + name@ + "/training"@,
        Endpoint::Exchange => "/v2/commerce/exchange"@,
        Endpoint::CoinExchange(quantity) => "/v2/commerce/exchange/coins?"@ + spec_quantity_param(quantity as int),
        Endpoint::GemExchange(quantity) => "/v2/commerce/exchange/gems?"@ + spec_quantity_param(quantity as int),
        Endpoint::ListingIds => "/v2/commerce/listings"@,
        Endpoint::Listing(id) => "/v2/commerce/listings?"@ + spec_id_param(id as int),
        Endpoint::Listings(ids) => "/v2/commerce/listings?"@ + spec_ids_param(ids@),
        Endpoint::PricingIds => "/v2/commerce/prices"@,
        Endpoint::Pricing(id) => "/v2/commerce/prices?"@ + spec_id_param(id as int),
        Endpoint::Pricings(ids) => "/v2/commerce/prices?"@ + spec_ids_param(ids@),
        Endpoint::CurrentBuyTransactions => "/v2/commerce/transactions/current/buys"@,
        Endpoint::CurrentSellTransactions => "/v2/commerce/transactions/current/sells"@,
        Endpoint::HistoryBuyTransactions => "/v2/commerce/transactions/history/buys"@,
        Endpoint::HistorySellTransactions => "/v2/commerce/transactions/history/sells"@,
        Endpoint::MasteryIds => "/v2/masteries"@,
        Endpoint::Mastery(id) => "/v2/masteries?"@ + spec_id_param(id as int),
        Endpoint::Masteries(ids) => "/v2/masteries?"@ + spec_ids_param(ids@),
        Endpoint::OutfitIds => "/v2/outfits"@,
        Endpoint::Outfit(id) => "/v2/outfits?"@ + spec_id_param(id as int),
        Endpoint::Outfits(ids) => "/v2/outfits?"@ + spec_ids_param(ids@),
        Endpoint::PetIds => "/v2/pets"@,
        Endpoint::Pet(id) => "/v2/pets?"@ + spec_id_param(id as int),
        Endpoint::Pets(ids) => "/v2/pets?"@ + spec_ids_param(ids@),
        Endpoint::ProfessionIds => "/v2/professions"@,
        Endpoint::Profession(id) => "/v2/professions?"@ + spec_id_str_param(id@),
        Endpoint::Professions(ids) => "/v2/professions?"@ + spec_ids_str_param(spec_views(ids@)),
        Endpoint::RaceIds => "/v2/races"@,
        Endpoint::Race(id) => "/v2/races?"@ + spec_id_str_param(id@),
        Endpoint::Races(ids) => "/v2/races?"@ + spec_ids_str_param(spec_views(ids@)),
        Endpoint::SpecializationIds => "/v2/specializations"@,
        Endpoint::Specialization(id) => "/v2/specializations?"@ + spec_id_param(id as int),
        Endpoint::Specializations(ids) => "/v2/specializations?"@ + spec_ids_param(ids@),
        Endpoint::SkillIds => "/v2/skills"@,
        Endpoint::Skill(id) => "/v2/skills?"@ + spec_id_param(id as int),
        Endpoint::Skills(ids) => "/v2/skills?"@ + spec_ids_param(ids@),
        Endpoint::TraitIds => "/v2/traits"@,
        Endpoint::Trait(id) => "/v2/traits?"@ + spec_id_param(id as int),
        Endpoint::Traits(ids) => "/v2/traits?"@ + spec_ids_param(ids@),
        Endpoint::LegendIds => "/v2/legends"@,
        Endpoint::Legend(id) => "/v2/legends?"@ + spec_id_str_param(id@),
        Endpoint::Legends(ids) => "/v2/legends?"@ + spec_ids_str_param(spec_views(ids@)),
    }
}

/// The status-set policy each endpoint declares.
pub open spec fn spec_policy(e: Endpoint) -> StatusPolicy {
    match e {
        Endpoint::Account => StatusPolicy::Authenticated,
        Endpoint::AccountAchievements => StatusPolicy::Authenticated,
        Endpoint::AccountBank => StatusPolicy::Authenticated,
        Endpoint::AccountDungeons => StatusPolicy::Authenticated,
        Endpoint::AccountDyes => StatusPolicy::Authenticated,
        Endpoint::AccountFinishers => StatusPolicy::Authenticated,
        Endpoint::AccountCats => StatusPolicy::Authenticated,
        Endpoint::AccountNodes => StatusPolicy::Authenticated,
        Endpoint::AccountInventory => StatusPolicy::Authenticated,
        Endpoint::AccountMasteries => StatusPolicy::Authenticated,
        Endpoint::AccountMaterials => StatusPolicy::Authenticated,
        Endpoint::AccountMinis => StatusPolicy::Authenticated,
        Endpoint::AccountOutfits => StatusPolicy::Authenticated,
        Endpoint::AccountRaids => StatusPolicy::Authenticated,
        Endpoint::AccountRecipes => StatusPolicy::Authenticated,
        Endpoint::AccountSkins => StatusPolicy::Authenticated,
        Endpoint::AccountTitles => StatusPolicy::Authenticated,
        Endpoint::AccountWallet => StatusPolicy::Authenticated,
        Endpoint::TokenInfo => StatusPolicy::AuthLookup,
        Endpoint::AchievementIds => StatusPolicy::PublicLookup,
        Endpoint::Achievement(_) => StatusPolicy::PublicLookup,
        Endpoint::Achievements(_) => StatusPolicy::PublicBatch,
        Endpoint::DailyAchievements => StatusPolicy::PublicLookup,
        Endpoint::DailyAchievementsTomorrow => StatusPolicy::PublicLookup,
        Endpoint::AchievementGroupIds => StatusPolicy::PublicLookup,
        Endpoint::AchievementGroup(_) => StatusPolicy::PublicLookup,
        Endpoint::AchievementGroups(_) => StatusPolicy::PublicBatch,
        Endpoint::AchievementCategoryIds => StatusPolicy::PublicLookup,
        Endpoint::AchievementCategory(_) => StatusPolicy::PublicLookup,
        Endpoint::AchievementCategories(_) => StatusPolicy::PublicBatch,
        Endpoint::CharacterNames => StatusPolicy::Authenticated,
        Endpoint::Character(_) => StatusPolicy::AuthLookup,
        Endpoint::CharacterBackstory(_) => StatusPolicy::AuthScopedLookup,
        Endpoint::CharacterCore(_) => StatusPolicy::AuthScopedLookup,
        Endpoint::CharacterCrafting(_) => StatusPolicy::AuthScopedLookup,
        Endpoint::CharacterEquipment(_) => StatusPolicy::AuthScopedLookup,
        Endpoint::CharacterHeropoints(_) => StatusPolicy::AuthScopedLookup,
        Endpoint::CharacterInventory(_) => StatusPolicy::AuthScopedLookup,
        Endpoint::CharacterRecipes(_) => StatusPolicy::AuthScopedLookup,
        Endpoint::CharacterSab(_) => StatusPolicy::AuthLookup,
        Endpoint::CharacterSkills(_) => StatusPolicy::AuthScopedLookup,
        Endpoint::CharacterSpecializations(_) => StatusPolicy::AuthScopedLookup,
        Endpoint::CharacterTraining(_) => StatusPolicy::AuthScopedLookup,
        Endpoint::Exchange => StatusPolicy::PublicLookup,
        Endpoint::CoinExchange(_) => StatusPolicy::QuantityExchange,
        Endpoint::GemExchange(_) => StatusPolicy::QuantityExchange,
        Endpoint::ListingIds => StatusPolicy::PublicLookup,
        Endpoint::Listing(_) => StatusPolicy::PublicLookup,
        Endpoint::Listings(_) => StatusPolicy::PublicBatch,
        Endpoint::PricingIds => StatusPolicy::PublicLookup,
        Endpoint::Pricing(_) => StatusPolicy::PublicLookup,
        Endpoint::Pricings(_) => StatusPolicy::PublicBatch,
        Endpoint::CurrentBuyTransactions => StatusPolicy::Authenticated,
        Endpoint::CurrentSellTransactions => StatusPolicy::Authenticated,
        Endpoint::HistoryBuyTransactions => StatusPolicy::Authenticated,
        Endpoint::HistorySellTransactions => StatusPolicy::Authenticated,
        Endpoint::MasteryIds => StatusPolicy::PublicLookup,
        Endpoint::Mastery(_) => StatusPolicy::PublicLookup,
        Endpoint::Masteries(_) => StatusPolicy::PublicBatch,
        Endpoint::OutfitIds => StatusPolicy::PublicLookup,
        Endpoint::Outfit(_) => StatusPolicy::PublicLookup,
        Endpoint::Outfits(_) => StatusPolicy::PublicBatch,
        Endpoint::PetIds => StatusPolicy::PublicLookup,
        Endpoint::Pet(_) => StatusPolicy::PublicLookup,
        Endpoint::Pets(_) => StatusPolicy::PublicBatch,
        Endpoint::ProfessionIds => StatusPolicy::PublicLookup,
        Endpoint::Profession(_) => StatusPolicy::PublicLookup,
        Endpoint::Professions(_) => StatusPolicy::PublicBatch,
        Endpoint::RaceIds => StatusPolicy::PublicLookup,
        Endpoint::Race(_) => StatusPolicy::PublicLookup,
        Endpoint::Races(_) => StatusPolicy::PublicBatch,
        Endpoint::SpecializationIds => StatusPolicy::PublicLookup,
        Endpoint::Specialization(_) => StatusPolicy::PublicLookup,
        Endpoint::Specializations(_) => StatusPolicy::PublicBatch,
        Endpoint::SkillIds => StatusPolicy::PublicLookup,
        Endpoint::Skill(_) => StatusPolicy::PublicLookup,
        Endpoint::Skills(_) => StatusPolicy::PublicBatch,
        Endpoint::TraitIds => StatusPolicy::PublicLookup,
        Endpoint::Trait(_) => StatusPolicy::PublicLookup,
        Endpoint::Traits(_) => StatusPolicy::PublicBatch,
        Endpoint::LegendIds => StatusPolicy::PublicLookup,
        Endpoint::Legend(_) => StatusPolicy::PublicLookup,
        Endpoint::Legends(_) => StatusPolicy::PublicBatch,
    }
}

impl Endpoint {
    /// Resolves the complete relative request path, query string included.
    pub fn path(&self) -> (s: String)
        ensures s@ == spec_path(*self),
    {
        match self {
            Endpoint::Account => String::from_str("/v2/account"),
            Endpoint::AccountAchievements => String::from_str("/v2/account/achievements"),
            Endpoint::AccountBank => String::from_str("/v2/account/bank"),
            Endpoint::AccountDungeons => String::from_str("/v2/account/dungeons"),
            Endpoint::AccountDyes => String::from_str("/v2/account/dyes"),
            Endpoint::AccountFinishers => String::from_str("/v2/account/finishers"),
            Endpoint::AccountCats => String::from_str("/v2/account/home/cats"),
            Endpoint::AccountNodes => String::from_str("/v2/account/home/nodes"),
            Endpoint::AccountInventory => String::from_str("/v2/account/inventory"),
            Endpoint::AccountMasteries => String::from_str("/v2/account/masteries"),
            Endpoint::AccountMaterials => String::from_str("/v2/account/materials"),
            Endpoint::AccountMinis => String::from_str("/v2/account/minis"),
            Endpoint::AccountOutfits => String::from_str("/v2/account/outfits"),
            Endpoint::AccountRaids => String::from_str("/v2/account/raids"),
            Endpoint::AccountRecipes => String::from_str("/v2/account/recipes"),
            Endpoint::AccountSkins => String::from_str("/v2/account/skins"),
            Endpoint::AccountTitles => String::from_str("/v2/account/titles"),
            Endpoint::AccountWallet => String::from_str("/v2/account/wallet"),
            Endpoint::TokenInfo => String::from_str("/v2/tokeninfo"),
            Endpoint::AchievementIds => String::from_str("/v2/achievements"),
            Endpoint::Achievement(id) => query_num("/v2/achievements?", *id),
            Endpoint::Achievements(ids) => query_nums("/v2/achievements?", ids),
            Endpoint::DailyAchievements => String::from_str("/v2/achievements/daily"),
            Endpoint::DailyAchievementsTomorrow => String::from_str("/v2/achievements/daily/tomorrow"),
            Endpoint::AchievementGroupIds => String::from_str("/v2/achievements/groups"),
            Endpoint::AchievementGroup(id) => query_str("/v2/achievements/groups?", id.as_str()),
            Endpoint::AchievementGroups(ids) => query_strs("/v2/achievements/groups?", ids),
            Endpoint::AchievementCategoryIds => String::from_str("/v2/achievements/categories"),
            Endpoint::AchievementCategory(id) => query_num("/v2/achievements/categories?", *id),
            Endpoint::AchievementCategories(ids) => query_nums("/v2/achievements/categories?", ids),
            Endpoint::CharacterNames => String::from_str("/v2/characters"),
            Endpoint::Character(name) => character_path(name.as_str()),
            Endpoint::CharacterBackstory(name) => character_sub_path(name.as_str(), "/backstory"),
            Endpoint::CharacterCore(name) => character_sub_path(name.as_str(), "/core"),
            Endpoint::CharacterCrafting(name) => character_sub_path(name.as_str(), "/crafting"),
            Endpoint::CharacterEquipment(name) => character_sub_path(name.as_str(), "/equipment"),
            Endpoint::CharacterHeropoints(name) => character_sub_path(name.as_str(), "/heropoints"),
            Endpoint::CharacterInventory(name) => character_sub_path(name.as_str(), "/inventory"),
            Endpoint::CharacterRecipes(name) => character_sub_path(name.as_str(), "/recipes"),
            Endpoint::CharacterSab(name) => character_sub_path(name.as_str(), "/sab"),
            Endpoint::CharacterSkills(name) => character_sub_path(name.as_str(), "/skills"),
            Endpoint::CharacterSpecializations(name) => character_sub_path(name.as_str(), "/specializations"),
            Endpoint::CharacterTraining(name) => character_sub_path(name.as_str(), "/training"),
            Endpoint::Exchange => String::from_str("/v2/commerce/exchange"),
            Endpoint::CoinExchange(quantity) => query_quantity("/v2/commerce/exchange/coins?", *quantity),
            Endpoint::GemExchange(quantity) => query_quantity("/v2/commerce/exchange/gems?", *quantity),
            Endpoint::ListingIds => String::from_str("/v2/commerce/listings"),
            Endpoint::Listing(id) => query_num("/v2/commerce/listings?", *id),
            Endpoint::Listings(ids) => query_nums("/v2/commerce/listings?", ids),
            Endpoint::PricingIds => String::from_str("/v2/commerce/prices"),
            Endpoint::Pricing(id) => query_num("/v2/commerce/prices?", *id),
            Endpoint::Pricings(ids) => query_nums("/v2/commerce/prices?", ids),
            Endpoint::CurrentBuyTransactions => String::from_str("/v2/commerce/transactions/current/buys"),
            Endpoint::CurrentSellTransactions => String::from_str("/v2/commerce/transactions/current/sells"),
            Endpoint::HistoryBuyTransactions => String::from_str("/v2/commerce/transactions/history/buys"),
            Endpoint::HistorySellTransactions => String::from_str("/v2/commerce/transactions/history/sells"),
            Endpoint::MasteryIds => String::from_str("/v2/masteries"),
            Endpoint::Mastery(id) => query_num("/v2/masteries?", *id),
            Endpoint::Masteries(ids) => query_nums("/v2/masteries?", ids),
            Endpoint::OutfitIds => String::from_str("/v2/outfits"),
            Endpoint::Outfit(id) => query_num("/v2/outfits?", *id),
            Endpoint::Outfits(ids) => query_nums("/v2/outfits?", ids),
            Endpoint::PetIds => String::from_str("/v2/pets"),
            Endpoint::Pet(id) => query_num("/v2/pets?", *id),
            Endpoint::Pets(ids) => query_nums("/v2/pets?", ids),
            Endpoint::ProfessionIds => String::from_str("/v2/professions"),
            Endpoint::Profession(id) => query_str("/v2/professions?", id.as_str()),
            Endpoint::Professions(ids) => query_strs("/v2/professions?", ids),
            Endpoint::RaceIds => String::from_str("/v2/races"),
            Endpoint::Race(id) => query_str("/v2/races?", id.as_str()),
            Endpoint::Races(ids) => query_strs("/v2/races?", ids),
            Endpoint::SpecializationIds => String::from_str("/v2/specializations"),
            Endpoint::Specialization(id) => query_num("/v2/specializations?", *id),
            Endpoint::Specializations(ids) => query_nums("/v2/specializations?", ids),
            Endpoint::SkillIds => String::from_str("/v2/skills"),
            Endpoint::Skill(id) => query_num("/v2/skills?", *id),
            Endpoint::Skills(ids) => query_nums("/v2/skills?", ids),
            Endpoint::TraitIds => String::from_str("/v2/traits"),
            Endpoint::Trait(id) => query_num("/v2/traits?", *id),
            Endpoint::Traits(ids) => query_nums("/v2/traits?", ids),
            Endpoint::LegendIds => String::from_str("/v2/legends"),
            Endpoint::Legend(id) => query_str("/v2/legends?", id.as_str()),
            Endpoint::Legends(ids) => query_strs("/v2/legends?", ids),
        }
    }

    /// The status-set policy this endpoint declares.
    pub fn policy(&self) -> (p: StatusPolicy)
        ensures p == spec_policy(*self),
    {
        match self {
            Endpoint::Account => StatusPolicy::Authenticated,
            Endpoint::AccountAchievements => StatusPolicy::Authenticated,
            Endpoint::AccountBank => StatusPolicy::Authenticated,
            Endpoint::AccountDungeons => StatusPolicy::Authenticated,
            Endpoint::AccountDyes => StatusPolicy::Authenticated,
            Endpoint::AccountFinishers => StatusPolicy::Authenticated,
            Endpoint::AccountCats => StatusPolicy::Authenticated,
            Endpoint::AccountNodes => StatusPolicy::Authenticated,
            Endpoint::AccountInventory => StatusPolicy::Authenticated,
            Endpoint::AccountMasteries => StatusPolicy::Authenticated,
            Endpoint::AccountMaterials => StatusPolicy::Authenticated,
            Endpoint::AccountMinis => StatusPolicy::Authenticated,
            Endpoint::AccountOutfits => StatusPolicy::Authenticated,
            Endpoint::AccountRaids => StatusPolicy::Authenticated,
            Endpoint::AccountRecipes => StatusPolicy::Authenticated,
            Endpoint::AccountSkins => StatusPolicy::Authenticated,
            Endpoint::AccountTitles => StatusPolicy::Authenticated,
            Endpoint::AccountWallet => StatusPolicy::Authenticated,
            Endpoint::TokenInfo => StatusPolicy::AuthLookup,
            Endpoint::AchievementIds => StatusPolicy::PublicLookup,
            Endpoint::Achievement(_) => StatusPolicy::PublicLookup,
            Endpoint::Achievements(_) => StatusPolicy::PublicBatch,
            Endpoint::DailyAchievements => StatusPolicy::PublicLookup,
            Endpoint::DailyAchievementsTomorrow => StatusPolicy::PublicLookup,
            Endpoint::AchievementGroupIds => StatusPolicy::PublicLookup,
            Endpoint::AchievementGroup(_) => StatusPolicy::PublicLookup,
            Endpoint::AchievementGroups(_) => StatusPolicy::PublicBatch,
            Endpoint::AchievementCategoryIds => StatusPolicy::PublicLookup,
            Endpoint::AchievementCategory(_) => StatusPolicy::PublicLookup,
            Endpoint::AchievementCategories(_) => StatusPolicy::PublicBatch,
            Endpoint::CharacterNames => StatusPolicy::Authenticated,
            Endpoint::Character(_) => StatusPolicy::AuthLookup,
            Endpoint::CharacterBackstory(_) => StatusPolicy::AuthScopedLookup,
            Endpoint::CharacterCore(_) => StatusPolicy::AuthScopedLookup,
            Endpoint::CharacterCrafting(_) => StatusPolicy::AuthScopedLookup,
            Endpoint::CharacterEquipment(_) => StatusPolicy::AuthScopedLookup,
            Endpoint::CharacterHeropoints(_) => StatusPolicy::AuthScopedLookup,
            Endpoint::CharacterInventory(_) => StatusPolicy::AuthScopedLookup,
            Endpoint::CharacterRecipes(_) => StatusPolicy::AuthScopedLookup,
            Endpoint::CharacterSab(_) => StatusPolicy::AuthLookup,
            Endpoint::CharacterSkills(_) => StatusPolicy::AuthScopedLookup,
            Endpoint::CharacterSpecializations(_) => StatusPolicy::AuthScopedLookup,
            Endpoint::CharacterTraining(_) => StatusPolicy::AuthScopedLookup,
            Endpoint::Exchange => StatusPolicy::PublicLookup,
            Endpoint::CoinExchange(_) => StatusPolicy::QuantityExchange,
            Endpoint::GemExchange(_) => StatusPolicy::QuantityExchange,
            Endpoint::ListingIds => StatusPolicy::PublicLookup,
            Endpoint::Listing(_) => StatusPolicy::PublicLookup,
            Endpoint::Listings(_) => StatusPolicy::PublicBatch,
            Endpoint::PricingIds => StatusPolicy::PublicLookup,
            Endpoint::Pricing(_) => StatusPolicy::PublicLookup,
            Endpoint::Pricings(_) => StatusPolicy::PublicBatch,
            Endpoint::CurrentBuyTransactions => StatusPolicy::Authenticated,
            Endpoint::CurrentSellTransactions => StatusPolicy::Authenticated,
            Endpoint::HistoryBuyTransactions => StatusPolicy::Authenticated,
            Endpoint::HistorySellTransactions => StatusPolicy::Authenticated,
            Endpoint::MasteryIds => StatusPolicy::PublicLookup,
            Endpoint::Mastery(_) => StatusPolicy::PublicLookup,
            Endpoint::Masteries(_) => StatusPolicy::PublicBatch,
            Endpoint::OutfitIds => StatusPolicy::PublicLookup,
            Endpoint::Outfit(_) => StatusPolicy::PublicLookup,
            Endpoint::Outfits(_) => StatusPolicy::PublicBatch,
            Endpoint::PetIds => StatusPolicy::PublicLookup,
            Endpoint::Pet(_) => StatusPolicy::PublicLookup,
            Endpoint::Pets(_) => StatusPolicy::PublicBatch,
            Endpoint::ProfessionIds => StatusPolicy::PublicLookup,
            Endpoint::Profession(_) => StatusPolicy::PublicLookup,
            Endpoint::Professions(_) => StatusPolicy::PublicBatch,
            Endpoint::RaceIds => StatusPolicy::PublicLookup,
            Endpoint::Race(_) => StatusPolicy::PublicLookup,
            Endpoint::Races(_) => StatusPolicy::PublicBatch,
            Endpoint::SpecializationIds => StatusPolicy::PublicLookup,
            Endpoint::Specialization(_) => StatusPolicy::PublicLookup,
            Endpoint::Specializations(_) => StatusPolicy::PublicBatch,
            Endpoint::SkillIds => StatusPolicy::PublicLookup,
            Endpoint::Skill(_) => StatusPolicy::PublicLookup,
            Endpoint::Skills(_) => StatusPolicy::PublicBatch,
            Endpoint::TraitIds => StatusPolicy::PublicLookup,
            Endpoint::Trait(_) => StatusPolicy::PublicLookup,
            Endpoint::Traits(_) => StatusPolicy::PublicBatch,
            Endpoint::LegendIds => StatusPolicy::PublicLookup,
            Endpoint::Legend(_) => StatusPolicy::PublicLookup,
            Endpoint::Legends(_) => StatusPolicy::PublicBatch,
        }
    }
}

} // verus!
