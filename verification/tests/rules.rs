use whitelist_core::commands::{
    check_arg_whitelisted, check_sender_not_whitelisted, is_whitelist_channel, Account, ArgCheck,
    ArgDenied, ArgEvent, CheckDenied, DieselFind, FindError, SenderCheck, SenderEvent,
};
use whitelist_core::config::Discord;
use whitelist_core::constants::PIT_ROLE;
use whitelist_core::events::{
    concerns, contains_id, guild_member_addition, guild_member_removal, is_pitted, restores,
    suspends, was_pitted,
};
use whitelist_core::gate::{try_admit_shared, QuotaGate};
use whitelist_core::mclink;
use whitelist_core::mclink::{LinkEvent, LinkReply, LinkState, Lookup};
use whitelist_core::mcunlink;
use whitelist_core::mcunlink::{UnlinkEvent, UnlinkReply, UnlinkState};
use whitelist_core::models::{MCStatus, MinecraftUser, NewMinecraftUser};
use whitelist_core::mojang;
use whitelist_core::ratelimiter::{Admission, QuotaPolicy, RatelimiterError};
use whitelist_core::routes::{
    announced_change, is_member, member_or_forbidden, normalized, register, register_uuid,
    registered, shown_change, status, status_of, with_hyphenated, Registered, Registration,
};

fn found() -> DieselFind {
    DieselFind(None)
}

fn missing() -> DieselFind {
    DieselFind(Some(FindError::NotFound))
}

fn failed() -> DieselFind {
    DieselFind(Some(FindError::Other))
}

fn row(suspended: i8) -> MinecraftUser {
    MinecraftUser {
        discord_id: 11,
        minecraft_uuid: String::from("069a79f444e94726a5befca90e38aaf5"),
        minecraft_name: String::from("Notch"),
        suspended,
    }
}

#[test]
fn lookups_with_their_row_left_aside() {
    assert_eq!(DieselFind::from_result(Ok::<u8, FindError>(3)), found());
    assert_eq!(DieselFind::from_result(Err::<u8, FindError>(FindError::NotFound)), missing());
    assert_eq!(DieselFind::from_result(Err::<String, FindError>(FindError::Other)), failed());
}

fn sender_check(account: Account, events: &[SenderEvent]) -> SenderCheck {
    let mut state = SenderCheck::Start;
    for event in events {
        state = check_sender_not_whitelisted(account, state, *event);
    }
    state
}

#[test]
fn only_a_member_without_a_row_may_link() {
    let asked = SenderEvent::Asked { member: Some(5) };
    let connected = SenderEvent::Connected { connected: true };
    assert_eq!(sender_check(Account::Mojang, &[]), SenderCheck::Start);
    assert_eq!(sender_check(Account::Mojang, &[asked]), SenderCheck::Connect { author: 5 });
    assert_eq!(sender_check(Account::Mojang, &[asked, connected]), SenderCheck::Find { author: 5 });
    assert_eq!(
        sender_check(Account::Mojang, &[asked, connected, SenderEvent::Found { find: missing() }]),
        SenderCheck::Allowed
    );
    assert_eq!(
        sender_check(Account::Mojang, &[asked, connected, SenderEvent::Found { find: found() }]),
        SenderCheck::Denied(CheckDenied::AlreadyWhitelisted(5))
    );
    assert_eq!(
        sender_check(Account::Mojang, &[asked, connected, SenderEvent::Found { find: failed() }]),
        SenderCheck::Denied(CheckDenied::Unexpected)
    );
}

#[test]
fn a_sender_who_cannot_be_checked_may_not_link() {
    let asked = SenderEvent::Asked { member: Some(5) };
    let connected = SenderEvent::Connected { connected: true };
    let unconnected = SenderEvent::Connected { connected: false };
    assert_eq!(
        sender_check(Account::Mojang, &[SenderEvent::Asked { member: None }]),
        SenderCheck::Denied(CheckDenied::FromDirectMessage)
    );
    assert_eq!(
        sender_check(Account::Mojang, &[asked, unconnected]),
        SenderCheck::Denied(CheckDenied::NoConnection)
    );
    assert_eq!(
        sender_check(Account::Steam, &[asked, unconnected]),
        SenderCheck::Denied(CheckDenied::NoConnection)
    );
    assert_eq!(
        sender_check(Account::Steam, &[asked, connected]),
        SenderCheck::Denied(CheckDenied::SteamUnsupported)
    );
    assert_eq!(
        sender_check(Account::All, &[asked, connected]),
        SenderCheck::Denied(CheckDenied::InvalidAccount)
    );
}

#[test]
fn a_check_takes_no_event_it_does_not_wait_for() {
    let asked = SenderEvent::Asked { member: Some(5) };
    let connected = SenderEvent::Connected { connected: true };
    let none = SenderEvent::Found { find: missing() };
    assert_eq!(sender_check(Account::Mojang, &[none]), SenderCheck::Start);
    assert_eq!(sender_check(Account::Mojang, &[connected, none]), SenderCheck::Start);
    assert_eq!(sender_check(Account::Mojang, &[asked, none]), SenderCheck::Connect { author: 5 });
    assert_eq!(
        sender_check(
            Account::Mojang,
            &[asked, SenderEvent::Asked { member: Some(6) }, connected, connected, none]
        ),
        SenderCheck::Allowed
    );
    assert_eq!(
        sender_check(
            Account::Mojang,
            &[asked, connected, none, SenderEvent::Found { find: found() }, asked]
        ),
        SenderCheck::Allowed
    );
    assert_eq!(
        sender_check(Account::Mojang, &[SenderEvent::Asked { member: None }, asked, connected]),
        SenderCheck::Denied(CheckDenied::FromDirectMessage)
    );
}

#[test]
fn a_named_user_is_whitelisted_when_a_row_is_found() {
    let begin = ArgCheck::Connect { user: 9 };
    let connected = ArgEvent::Connected { connected: true };
    assert_eq!(
        check_arg_whitelisted(Account::Mojang, begin, ArgEvent::Connected { connected: false }),
        ArgCheck::Denied(ArgDenied::NoConnection)
    );
    assert_eq!(check_arg_whitelisted(Account::Mojang, begin, connected), ArgCheck::Find { user: 9 });
    assert_eq!(
        check_arg_whitelisted(Account::Steam, begin, connected),
        ArgCheck::Denied(ArgDenied::SteamRemoved)
    );
    assert_eq!(
        check_arg_whitelisted(Account::All, begin, connected),
        ArgCheck::Denied(ArgDenied::InvalidAccount)
    );
    let find = ArgCheck::Find { user: 9 };
    assert_eq!(
        check_arg_whitelisted(Account::Mojang, find, ArgEvent::Found { find: found() }),
        ArgCheck::Whitelisted
    );
    assert_eq!(
        check_arg_whitelisted(Account::Mojang, find, ArgEvent::Found { find: missing() }),
        ArgCheck::Denied(ArgDenied::NotWhitelisted)
    );
    assert_eq!(
        check_arg_whitelisted(Account::Mojang, find, ArgEvent::Found { find: failed() }),
        ArgCheck::Denied(ArgDenied::NotWhitelisted)
    );
    assert_eq!(check_arg_whitelisted(Account::Mojang, find, connected), find);
    assert_eq!(
        check_arg_whitelisted(Account::Mojang, begin, ArgEvent::Found { find: found() }),
        begin
    );
    assert_eq!(
        check_arg_whitelisted(Account::Mojang, ArgCheck::Whitelisted, connected),
        ArgCheck::Whitelisted
    );
}

#[test]
fn whitelist_commands_belong_in_one_channel() {
    let config = Discord {
        start_bot: true,
        guild_id: 1,
        channel_id: 708_442_959_586_132_009,
        token: String::new(),
    };
    assert!(is_whitelist_channel(&config, 708_442_959_586_132_009));
    assert!(!is_whitelist_channel(&config, 1));
}

fn link(events: &[LinkEvent]) -> LinkState {
    let mut state = LinkState::Start;
    for event in events {
        state = mclink::run(state, *event);
    }
    state
}

const NAMED: LinkEvent = LinkEvent::Invoked { has_name: true };
const ADMITTED: LinkEvent = LinkEvent::QuotaAsked { answer: Ok(Admission::Admitted) };
const ALLOWED: LinkEvent = LinkEvent::SenderChecked { allowed: true };
const FOUND: LinkEvent = LinkEvent::LookedUp { found: Lookup::Found, member: true };

#[test]
fn linking_step_by_step() {
    assert_eq!(link(&[]), LinkState::Start);
    assert_eq!(link(&[NAMED]), LinkState::AskQuota);
    assert_eq!(link(&[NAMED, ADMITTED]), LinkState::CheckSender);
    assert_eq!(link(&[NAMED, ADMITTED, ALLOWED]), LinkState::Lookup);
    assert_eq!(link(&[NAMED, ADMITTED, ALLOWED, FOUND]), LinkState::Store);
    assert_eq!(
        link(&[NAMED, ADMITTED, ALLOWED, FOUND, LinkEvent::Stored { stored: true }]),
        LinkState::Reply(LinkReply::Linked)
    );
}

#[test]
fn linking_that_ends_early() {
    assert_eq!(
        link(&[LinkEvent::Invoked { has_name: false }]),
        LinkState::Reply(LinkReply::InvalidName)
    );
    assert_eq!(
        link(&[NAMED, ADMITTED, LinkEvent::SenderChecked { allowed: false }]),
        LinkState::Reply(LinkReply::Refused)
    );
    let failed = LinkEvent::LookedUp { found: Lookup::Failed(503), member: true };
    assert_eq!(
        link(&[NAMED, ADMITTED, ALLOWED, failed]),
        LinkState::Reply(LinkReply::LookupFailed(503))
    );
    let failed_in_dm = LinkEvent::LookedUp { found: Lookup::Failed(404), member: false };
    assert_eq!(
        link(&[NAMED, ADMITTED, ALLOWED, failed_in_dm]),
        LinkState::Reply(LinkReply::LookupFailed(404))
    );
    let empty = LinkEvent::LookedUp { found: Lookup::Empty, member: false };
    assert_eq!(link(&[NAMED, ADMITTED, ALLOWED, empty]), LinkState::Reply(LinkReply::UnknownName));
    let found_in_dm = LinkEvent::LookedUp { found: Lookup::Found, member: false };
    assert_eq!(link(&[NAMED, ADMITTED, ALLOWED, found_in_dm]), LinkState::Abort);
    assert_eq!(
        link(&[NAMED, ADMITTED, ALLOWED, FOUND, LinkEvent::Stored { stored: false }]),
        LinkState::Reply(LinkReply::StoreFailed)
    );
}

#[test]
fn a_request_over_quota_is_told_how_long_to_wait() {
    let rejected = LinkEvent::QuotaAsked {
        answer: Ok(Admission::Rejected { retry_after: 57_000_000_000 }),
    };
    assert_eq!(
        link(&[NAMED, rejected]),
        LinkState::Reply(LinkReply::OverQuota { retry_after: 57_000_000_000 })
    );
    let soon = LinkEvent::QuotaAsked { answer: Ok(Admission::Rejected { retry_after: 1 }) };
    assert_eq!(link(&[NAMED, soon]), LinkState::Reply(LinkReply::OverQuota { retry_after: 1 }));
    assert_ne!(link(&[NAMED, rejected]), LinkState::Reply(LinkReply::Refused));
}

#[test]
fn a_quota_that_cannot_be_asked_is_a_failure_of_its_own() {
    let missing = LinkEvent::QuotaAsked { answer: Err(RatelimiterError::State) };
    assert_eq!(
        link(&[NAMED, missing]),
        LinkState::Reply(LinkReply::QuotaFailed(RatelimiterError::State))
    );
    assert_ne!(link(&[NAMED, missing]), LinkState::Reply(LinkReply::Refused));
    let over = LinkEvent::QuotaAsked { answer: Err(RatelimiterError::OverQuota) };
    assert_eq!(
        link(&[NAMED, over]),
        LinkState::Reply(LinkReply::QuotaFailed(RatelimiterError::OverQuota))
    );
    assert_eq!(
        link(&[NAMED, missing, ADMITTED, ALLOWED]),
        LinkState::Reply(LinkReply::QuotaFailed(RatelimiterError::State))
    );
}

#[test]
fn linking_takes_what_a_shared_gate_says() {
    let gate = QuotaGate::new(QuotaPolicy { window: 60, max_requests: 1 }, 0);
    let first = LinkEvent::QuotaAsked { answer: try_admit_shared(Some(&gate), 10) };
    assert_eq!(link(&[NAMED, first]), LinkState::CheckSender);
    let second = LinkEvent::QuotaAsked { answer: try_admit_shared(Some(&gate), 20) };
    assert_eq!(link(&[NAMED, second]), LinkState::Reply(LinkReply::OverQuota { retry_after: 40 }));
    let none = LinkEvent::QuotaAsked { answer: try_admit_shared(None, 20) };
    assert_eq!(
        link(&[NAMED, none]),
        LinkState::Reply(LinkReply::QuotaFailed(RatelimiterError::State))
    );
}

#[test]
fn linking_takes_no_event_it_does_not_wait_for() {
    assert_eq!(link(&[ADMITTED, ALLOWED, FOUND]), LinkState::Start);
    assert_eq!(link(&[NAMED, ALLOWED, FOUND]), LinkState::AskQuota);
    assert_eq!(link(&[NAMED, ADMITTED, FOUND, NAMED]), LinkState::CheckSender);
    let rejected = LinkEvent::QuotaAsked { answer: Ok(Admission::Rejected { retry_after: 9 }) };
    assert_eq!(
        link(&[NAMED, rejected, ADMITTED, ALLOWED, FOUND]),
        LinkState::Reply(LinkReply::OverQuota { retry_after: 9 })
    );
    assert_eq!(
        mclink::run(LinkState::Abort, LinkEvent::Stored { stored: true }),
        LinkState::Abort
    );
}

#[test]
fn what_a_lookup_came_to() {
    assert_eq!(mclink::looked_up(&Err(503)), Lookup::Failed(503));
    assert_eq!(mclink::looked_up(&Ok(Vec::new())), Lookup::Empty);
    let answer = Ok(vec![
        mojang::MinecraftUser {
            id: String::from("069a79f444e94726a5befca90e38aaf5"),
            name: String::from("Notch"),
        },
        mojang::MinecraftUser { id: String::from("other"), name: String::from("Other") },
    ]);
    assert_eq!(mclink::looked_up(&answer), Lookup::Found);
}

#[test]
fn the_account_that_is_stored() {
    let profile = mojang::MinecraftUser {
        id: String::from("069a79f444e94726a5befca90e38aaf5"),
        name: String::from("Notch"),
    };
    assert_eq!(
        mclink::new_account(5, &profile),
        NewMinecraftUser {
            discord_id: 5,
            minecraft_uuid: String::from("069a79f444e94726a5befca90e38aaf5"),
            minecraft_name: String::from("Notch"),
        }
    );
}

fn unlink(events: &[UnlinkEvent]) -> UnlinkState {
    let mut state = UnlinkState::Start;
    for event in events {
        state = mcunlink::run(state, *event);
    }
    state
}

#[test]
fn unlinking_step_by_step() {
    let named = UnlinkEvent::Invoked { names_user: true };
    let connected = UnlinkEvent::Connected { connected: true };
    assert_eq!(unlink(&[]), UnlinkState::Start);
    assert_eq!(unlink(&[UnlinkEvent::Invoked { names_user: false }]), UnlinkState::Ignore);
    assert_eq!(unlink(&[named]), UnlinkState::Connect);
    assert_eq!(
        unlink(&[named, UnlinkEvent::Connected { connected: false }]),
        UnlinkState::Reply(UnlinkReply::NoConnection)
    );
    assert_eq!(unlink(&[named, connected]), UnlinkState::Delete);
    assert_eq!(
        unlink(&[named, connected, UnlinkEvent::Deleted { deleted: true }]),
        UnlinkState::Reply(UnlinkReply::Unlinked)
    );
    assert_eq!(
        unlink(&[named, connected, UnlinkEvent::Deleted { deleted: false }]),
        UnlinkState::Reply(UnlinkReply::NotUnlinked)
    );
    assert_eq!(unlink(&[UnlinkEvent::Deleted { deleted: true }]), UnlinkState::Start);
    assert_eq!(unlink(&[named, UnlinkEvent::Deleted { deleted: true }]), UnlinkState::Connect);
    assert_eq!(
        unlink(&[UnlinkEvent::Invoked { names_user: false }, named, connected]),
        UnlinkState::Ignore
    );
}

#[test]
fn ids_among_ids() {
    assert!(!contains_id(&Vec::new(), 1));
    assert!(contains_id(&vec![1], 1));
    assert!(contains_id(&vec![3, 2, 1], 1));
    assert!(contains_id(&vec![1, 1, 1], 1));
    assert!(!contains_id(&vec![3, 2, 4], 1));
}

#[test]
fn only_the_configured_guild_is_the_bots_business() {
    let config = Discord { start_bot: true, guild_id: 77, channel_id: 0, token: String::new() };
    assert!(concerns(&config, 77));
    assert!(!concerns(&config, 78));
    assert!(guild_member_removal(&config, 77));
    assert!(!guild_member_removal(&config, 0));
}

#[test]
fn a_member_who_comes_back_is_restored() {
    assert!(guild_member_addition(found()));
    assert!(!guild_member_addition(missing()));
    assert!(!guild_member_addition(failed()));
}

#[test]
fn the_punishment_role_suspends_and_its_loss_restores() {
    assert!(is_pitted(&vec![1, PIT_ROLE, 3]));
    assert!(!is_pitted(&vec![1, 3]));
    assert!(!is_pitted(&Vec::new()));
    assert!(was_pitted(Some(&vec![PIT_ROLE])));
    assert!(!was_pitted(Some(&vec![PIT_ROLE + 1])));
    assert!(!was_pitted(None));
    assert!(suspends(found()));
    assert!(!suspends(missing()));
    assert!(!suspends(failed()));
    assert!(restores(Some(&row(1))));
    assert!(!restores(Some(&row(0))));
    assert!(!restores(Some(&row(2))));
    assert!(!restores(Some(&row(-1))));
    assert!(!restores(None));
}

#[test]
fn members_of_the_guild() {
    assert!(is_member(Some(&vec![5, 951_038_397_726_748_682]), 951_038_397_726_748_682));
    assert!(!is_member(Some(&vec![5, 6]), 951_038_397_726_748_682));
    assert!(!is_member(Some(&Vec::new()), 951_038_397_726_748_682));
    assert!(!is_member(None, 951_038_397_726_748_682));
}

#[test]
fn only_a_member_of_the_guild_is_served() {
    let guild = 951_038_397_726_748_682;
    assert_eq!(member_or_forbidden(Some(7), Some(&vec![5, guild]), guild), Ok(7));
    assert_eq!(member_or_forbidden(Some(0), Some(&vec![guild]), guild), Ok(0));
    assert_eq!(member_or_forbidden(Some(7), Some(&vec![5, 6]), guild), Err(403));
    assert_eq!(member_or_forbidden(Some(7), Some(&Vec::new()), guild), Err(403));
    assert_eq!(member_or_forbidden(Some(7), None, guild), Err(403));
    assert_eq!(member_or_forbidden(None, Some(&vec![guild]), guild), Err(403));
    assert_eq!(member_or_forbidden(None, None, guild), Err(403));
}

#[test]
fn a_status_shows_the_uuid_hyphenated() {
    assert_eq!(
        status_of(row(1)),
        MCStatus { status: 1, uuid: String::from("069a79f4-44e9-4726-a5be-fca90e38aaf5") }
    );
    assert_eq!(
        status(Some(row(0))),
        Ok(MCStatus { status: 0, uuid: String::from("069a79f4-44e9-4726-a5be-fca90e38aaf5") })
    );
    assert_eq!(status(None), Err(404));
}

#[test]
fn a_status_shows_what_is_no_uuid_as_it_is_stored() {
    let odd = MinecraftUser {
        discord_id: 1,
        minecraft_uuid: String::from("not a uuid"),
        minecraft_name: String::new(),
        suspended: -1,
    };
    assert_eq!(status_of(odd), MCStatus { status: 255, uuid: String::from("not a uuid") });
    assert_eq!(
        with_hyphenated(MCStatus { status: 3, uuid: String::from("a") }, None),
        MCStatus { status: 3, uuid: String::from("a") }
    );
    assert_eq!(
        with_hyphenated(MCStatus { status: 3, uuid: String::from("a") }, Some(String::from("b"))),
        MCStatus { status: 3, uuid: String::from("b") }
    );
}

#[test]
fn a_registration_takes_any_spelling_of_a_uuid() {
    let simple = Ok(String::from("936da01f9abd4d9d80c702af85c822a8"));
    assert_eq!(register_uuid("936da01f9abd4d9d80c702af85c822a8"), simple);
    assert_eq!(register_uuid("936DA01F9ABD4D9D80C702AF85C822A8"), simple);
    assert_eq!(register_uuid("936da01f-9abd-4d9d-80c7-02af85c822a8"), simple);
    assert_eq!(register_uuid("urn:uuid:936DA01F-9ABD-4d9d-80c7-02af85c822a8"), simple);
}

#[test]
fn a_registration_of_no_uuid_is_a_bad_request() {
    assert_eq!(register_uuid(""), Err(400));
    assert_eq!(register_uuid("Notch"), Err(400));
    assert_eq!(register_uuid("936da01f9abd4d9d80c702af85c822a"), Err(400));
    assert_eq!(register_uuid("936da01f9abd4d9d80c702af85c822ag"), Err(400));
    assert_eq!(register_uuid("936da01f-9abd4d9d-80c7-02af85c822a8"), Err(400));
    assert_eq!(register_uuid("ééééééééééééééééaaaa"), Err(400));
    assert_eq!(normalized(None), Err(400));
    assert_eq!(normalized(Some(String::from("x"))), Ok(String::from("x")));
}

#[test]
fn what_becomes_of_a_registration() {
    assert_eq!(register(5, "936da01f9abd4d9d80c702af85c822a8", Some(&row(1))), Registration::Deny);
    assert_eq!(
        register(5, "936da01f9abd4d9d80c702af85c822a8", Some(&row(0))),
        Registration::Update
    );
    assert_eq!(
        register(5, "936da01f9abd4d9d80c702af85c822a8", Some(&row(2))),
        Registration::Update
    );
    assert_eq!(
        register(5, "936da01f9abd4d9d80c702af85c822a8", None),
        Registration::Create(NewMinecraftUser {
            discord_id: 5,
            minecraft_uuid: String::from("936da01f9abd4d9d80c702af85c822a8"),
            minecraft_name: String::from("deprecated"),
        })
    );
}

#[test]
fn how_a_registration_ends() {
    let account = NewMinecraftUser {
        discord_id: 5,
        minecraft_uuid: String::from("936da01f9abd4d9d80c702af85c822a8"),
        minecraft_name: String::from("deprecated"),
    };
    let create = Registration::Create(account);
    assert_eq!(registered(&Registration::Deny, true), Registered { code: 403, announce: false });
    assert_eq!(registered(&Registration::Deny, false), Registered { code: 403, announce: false });
    assert_eq!(registered(&Registration::Update, true), Registered { code: 200, announce: true });
    assert_eq!(registered(&Registration::Update, false), Registered { code: 500, announce: false });
    assert_eq!(registered(&create, true), Registered { code: 200, announce: false });
    assert_eq!(registered(&create, false), Registered { code: 500, announce: false });
}

#[test]
fn a_change_is_announced_with_both_uuids_hyphenated() {
    assert_eq!(
        announced_change("069a79f444e94726a5befca90e38aaf5", "936DA01F9ABD4D9D80C702AF85C822A8"),
        Some((
            String::from("069a79f4-44e9-4726-a5be-fca90e38aaf5"),
            String::from("936da01f-9abd-4d9d-80c7-02af85c822a8")
        ))
    );
    assert_eq!(announced_change("nothing", "936da01f9abd4d9d80c702af85c822a8"), None);
    assert_eq!(announced_change("936da01f9abd4d9d80c702af85c822a8", ""), None);
    assert_eq!(shown_change(None, None), None);
    assert_eq!(shown_change(Some(String::from("a")), None), None);
    assert_eq!(
        shown_change(Some(String::from("a")), Some(String::from("b"))),
        Some((String::from("a"), String::from("b")))
    );
}
