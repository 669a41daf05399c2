use rainbow_ai::ai::{AIStatus, AIType, AI};
use rainbow_ai::auth::AuthenticatedUser;
use rainbow_ai::chat::{Friend, Group, GroupApply, GroupSetting, GroupUser, Message, MessageType};
use rainbow_ai::file_storage::FileStorage;
use rainbow_ai::gift::{Gift, GiftCategory, GiftEffectType};
use rainbow_ai::invite::Invite;
use rainbow_ai::jwt::Claims;
use rainbow_ai::point_shop::{MonthlyRedemptionStat, PurchaseRecord, ShopItem, ShopItemCategory, ShopItemType};
use rainbow_ai::token::refresh_access_token;
use rainbow_ai::user::{BackendUserRole, FrontendUserRole, User, VipLevel, VipLevelConfig};
use rainbow_ai::verification::{EmailVerification, VerificationType};
use rainbow_ai::wallet_tx::{CurrencyType, TxType, WalletTx};

#[test]
fn message_new_derives_the_conversation_key() {
    let m = Message::new(
        "alice".to_string(),
        "bob".to_string(),
        "hello".to_string(),
        MessageType::Text,
        false,
        None,
        None,
        None,
    );
    assert_eq!(m.chat_identify, "alice-bob");
    assert!(!m.is_read);
    assert!(m.is_last);
    assert_eq!(m.created_at, m.updated_at);
    assert_eq!(m.msg_id.chars().count(), 36);
    assert_ne!(m.id, m.msg_id);

    let g = Message::new(
        "alice".to_string(),
        "g-42".to_string(),
        "hello".to_string(),
        MessageType::Image,
        true,
        Some("f1".to_string()),
        None,
        None,
    );
    assert_eq!(g.chat_identify, "group-g-42");
    assert_eq!(g.message_type, MessageType::Image);
    assert_eq!(g.file_id.as_deref(), Some("f1"));
}

#[test]
fn group_new_starts_with_open_invitations() {
    let g = Group::new("team".to_string(), "owner1".to_string());
    assert_eq!(g.id, g.group_id);
    assert_eq!(g.setting.manage, 0);
    assert_eq!(g.setting.invite, 1);
    assert_eq!(g.setting.nospeak, 0);
    assert!(g.avatar.is_none());
    let s = GroupSetting::default();
    assert_eq!((s.manage, s.invite, s.nospeak), (0, 0, 0));
}

#[test]
fn group_membership_and_applications_start_plain() {
    let gu = GroupUser::new("g1".to_string(), "u1".to_string(), 3, None);
    assert_eq!(gu.role, 3);
    let ga = GroupApply::new("g1".to_string(), "u2".to_string(), "let me in".to_string());
    assert_eq!(ga.status, 0);
    let f = Friend::new("u1".to_string(), "u2".to_string(), None, "hi".to_string(), 1);
    assert!(!f.is_top);
    assert!(f.is_notice);
}

#[test]
fn ai_compatibility_follows_the_tier_ladder() {
    assert!(AIType::Companion.is_compatible_with_vip(&VipLevel::Free));
    assert!(!AIType::Creative.is_compatible_with_vip(&VipLevel::Free));
    assert!(AIType::Creative.is_compatible_with_vip(&VipLevel::Pro));
    assert!(!AIType::Work.is_compatible_with_vip(&VipLevel::Pro));
    assert!(AIType::Work.is_compatible_with_vip(&VipLevel::Premium));
    assert!(!AIType::Service.is_compatible_with_vip(&VipLevel::Premium));
    assert!(AIType::Service.is_compatible_with_vip(&VipLevel::Ultimate));
    assert!(!AIType::Governance.is_compatible_with_vip(&VipLevel::Ultimate));
    assert!(AIType::Governance.is_compatible_with_vip(&VipLevel::Team));
    assert!(AIType::Business.is_compatible_with_vip(&VipLevel::Team));
    assert!(AIType::Coordination.is_compatible_with_vip(&VipLevel::Team));
}

#[test]
fn ai_type_names_and_tier_names() {
    assert_eq!(AIType::Companion.to_string(), "伴侣型");
    assert_eq!(AIType::Governance.to_string(), "治理型");
    assert_eq!(VipLevel::Free.to_string(), "Free");
    assert_eq!(VipLevel::Team.to_string(), "Team");
}

#[test]
fn awaken_records_who_did_it() {
    let mut ai = AI::new("nova".to_string(), AIType::Companion, "u1".to_string());
    assert_eq!(ai.status, AIStatus::Active);
    assert!(!ai.awakened);
    ai.awaken("u1".to_string());
    assert!(ai.awakened);
    assert_eq!(ai.awakened_by.as_deref(), Some("u1"));
}

#[test]
fn can_initiate_ai_needs_a_slot_and_a_compatible_tier() {
    let mut u = User::new("a@example.com".to_string(), "hash".to_string());
    assert!(u.can_initiate_ai(AIType::Companion));
    assert!(!u.can_initiate_ai(AIType::Creative));
    u.ai_partner_count = 1;
    assert!(!u.can_initiate_ai(AIType::Companion));
}

#[test]
fn vip_expiration_resets_the_count_only_on_the_free_tier() {
    let mut u = User::new("a@example.com".to_string(), "hash".to_string());
    u.ai_partner_count = 3;
    u.vip_level = VipLevel::Pro;
    u.handle_vip_expiration();
    assert_eq!(u.ai_partner_count, 3);
    u.vip_level = VipLevel::Free;
    u.handle_vip_expiration();
    assert_eq!(u.ai_partner_count, 0);
}

#[test]
fn new_user_starts_on_the_free_tier() {
    let u = User::new("a@example.com".to_string(), "hash".to_string());
    assert_eq!(u.vip_level, VipLevel::Free);
    assert_eq!(u.frontend_roles, vec![FrontendUserRole::User]);
    assert!(u.backend_roles.is_empty());
    assert_eq!(u.ai_slots, 1);
    assert!(u.is_frontend_user());
    assert!(!u.is_backend_user());
    assert_eq!(u.id.chars().count(), 36);
}

#[test]
fn roles_decide_admin_rights() {
    let mut u = User::new("a@example.com".to_string(), "hash".to_string());
    assert!(!u.is_admin());
    u.backend_roles.push(BackendUserRole::Viewer);
    assert!(u.has_role(BackendUserRole::Viewer));
    assert!(!u.is_admin());
    u.backend_roles.push(BackendUserRole::SuperAdmin);
    assert!(u.is_admin());
}

#[test]
fn counters_track_ai_types_and_quota() {
    let mut u = User::new("a@example.com".to_string(), "hash".to_string());
    u.update_ai_count(&AIType::Companion);
    u.update_ai_count(&AIType::Work);
    u.update_ai_count(&AIType::Governance);
    assert_eq!(u.ai_partner_count, 3);
    assert_eq!(u.companion_ai_count, 1);
    assert_eq!(u.work_ai_count, 1);
    assert_eq!(u.service_ai_count, 0);
    u.use_free_mapping();
    assert_eq!(u.free_mapping_used, 1);
}

#[test]
fn vip_level_config_keeps_its_fields() {
    let c = VipLevelConfig::new(VipLevel::Pro, 3, 100, 10, 2, 1, 0, 0, 5);
    assert_eq!(c.level, VipLevel::Pro);
    assert_eq!(c.max_ai_partners, 3);
    assert_eq!(c.free_mapping_quota, 5);
}

#[test]
fn authenticated_user_is_never_an_admin_yet() {
    let a = AuthenticatedUser { user_id: "u1".to_string() };
    assert!(!a.is_admin());
}

#[test]
fn monthly_limit_counts_only_the_matching_item_type() {
    let stat = MonthlyRedemptionStat {
        id: "u1:2024-01".to_string(),
        user_id: "u1".to_string(),
        year_month: "2024-01".to_string(),
        item_type_counts: vec![("UserTitle".to_string(), 2), ("ExclusiveStory".to_string(), 5)],
        total_points_spent: 700,
        updated_at: 0,
    };
    assert!(stat.check_monthly_limit("UserTitle", 3));
    assert!(!stat.check_monthly_limit("UserTitle", 2));
    assert!(!stat.check_monthly_limit("ExclusiveStory", 5));
    assert!(stat.check_monthly_limit("AIDecoration", 1));
}

#[test]
fn shop_item_availability_depends_on_visibility_deadline_and_stock() {
    let item = ShopItem::new(
        "title".to_string(),
        "a title".to_string(),
        ShopItemType::UserTitle,
        ShopItemCategory::Decoration,
        100,
        None,
        true,
        Some(1000),
        Some(3),
        true,
        None,
        Some(2),
        Some(false),
    );
    assert!(item.is_available_at(999));
    assert!(!item.is_available_at(1000));
    let mut hidden = item.clone();
    hidden.visible = false;
    assert!(!hidden.is_available_at(0));
    let mut sold_out = item.clone();
    sold_out.stock = Some(0);
    assert!(!sold_out.is_available_at(0));
}

#[test]
fn purchase_activation_happens_once_and_not_after_expiry() {
    let mut p = PurchaseRecord::new("u1".to_string(), "i1".to_string(), 50, Some(100), None);
    assert!(!p.is_activated);
    assert_eq!(p.activate_at(100), Err("物品已过期"));
    assert!(p.activate_at(99).is_ok());
    assert!(p.is_activated);
    assert_eq!(p.activated_at, Some(99));
    assert_eq!(p.activate_at(99), Err("物品已激活"));
}

#[test]
fn invite_lives_seven_days_within_its_budget() {
    let inv = Invite::new("u1".to_string(), 2);
    assert_eq!(inv.expires_at, inv.created_at + 604800);
    assert_eq!(inv.code.chars().count(), 36);
    assert!(inv.can_be_used_at(inv.expires_at - 1));
    assert!(!inv.can_be_used_at(inv.expires_at));
    let mut spent = inv.clone();
    spent.used_by = vec!["a".to_string(), "b".to_string()];
    assert!(!spent.can_be_used_at(0));
    assert!(!spent.can_be_used());
}

#[test]
fn verification_code_is_six_digits_and_expires() {
    let v = EmailVerification::new("a@example.com".to_string(), VerificationType::Registration);
    assert_eq!(v.code.len(), 6);
    assert!(v.code.chars().all(|c| c.is_ascii_digit()));
    assert_eq!(v.expires_at, v.created_at + 900);
    assert!(!v.used);
    assert!(v.is_valid_at(v.expires_at - 1));
    assert!(!v.is_valid_at(v.expires_at));
    let mut used = v.clone();
    used.used = true;
    assert!(!used.is_valid_at(0));
    assert!(!used.is_valid());
}

#[test]
fn claims_lifetimes_differ_for_access_and_refresh() {
    let access = Claims::new("u1".to_string(), false, 1000, 3600);
    assert_eq!(access.iat, 1000);
    assert_eq!(access.exp, 4600);
    assert!(!access.refresh);
    let refresh = Claims::new("u1".to_string(), true, 1000, 3600);
    assert_eq!(refresh.exp, 1000 + 2592000);
    assert!(refresh.refresh);
    let clamped = Claims::new("u1".to_string(), false, i64::MAX - 10, 3600);
    assert_eq!(clamped.exp, i64::MAX);
}

#[test]
fn refresh_access_token_hands_the_token_back() {
    assert_eq!(refresh_access_token("tok-1"), Ok("tok-1".to_string()));
}

#[test]
fn file_urls_keep_only_the_final_path_component() {
    let fs = FileStorage::new("/var/data");
    assert_eq!(fs.base_path, "/var/data");
    assert_eq!(fs.get_file_url("/var/data/images/cat.png"), "/files/cat.png");
    assert_eq!(fs.get_file_url("plain.txt"), "/files/plain.txt");
    // Trailing separators and `.` components are skipped, as the standard
    // library's Path::file_name skips them.
    assert_eq!(fs.get_file_url("dir/"), "/files/dir");
    assert_eq!(fs.get_file_url("a/."), "/files/a");
    assert_eq!(fs.get_file_url("a//b//"), "/files/b");
    assert_eq!(fs.get_file_url("..."), "/files/...");
}

#[test]
fn gift_and_wallet_records_start_active() {
    let g = Gift::new(
        "rose".to_string(),
        None,
        10,
        5,
        GiftEffectType::Boost,
        GiftCategory::Light,
        None,
        false,
        None,
        Some(3),
    );
    assert!(g.is_active);
    assert_eq!(g.price_lc, 10);
    let tx = WalletTx::new(
        "u1".to_string(),
        TxType::GiftSend,
        10,
        CurrencyType::LC,
        Some(g.id.clone()),
        None,
    );
    assert_eq!(tx.amount, 10);
    assert_eq!(tx.currency, CurrencyType::LC);
}

#[test]
fn redemption_stats_count_per_type_and_total() {
    let mut stat = MonthlyRedemptionStat::new("u1".to_string());
    assert_eq!(stat.user_id, "u1");
    assert_eq!(stat.total_points_spent, 0);
    assert!(stat.item_type_counts.is_empty());
    assert_eq!(stat.id, format!("u1:{}", stat.year_month));
    // The month key looks like "YYYY-MM".
    assert_eq!(stat.year_month.len(), 7);
    assert_eq!(stat.year_month.as_bytes()[4], b'-');

    stat.record_redemption("UserTitle", 100);
    stat.record_redemption("UserTitle", 100);
    stat.record_redemption("ExclusiveStory", 300);
    assert_eq!(stat.total_points_spent, 500);
    assert!(stat.check_monthly_limit("UserTitle", 3));
    assert!(!stat.check_monthly_limit("UserTitle", 2));
    assert!(!stat.check_monthly_limit("ExclusiveStory", 1));
    assert!(stat.check_monthly_limit("AIDecoration", 1));
}
