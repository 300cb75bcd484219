//! The wallet: saved cards and the reminders sent before an obtained coupon expires.
use vstd::prelude::*;
use vstd::string::StringExecFns;
use crate::decimal::{format_i64, int_text};
use crate::text::{strings_contain, views_of};

verus! {

/// A card to be saved for a realm.
#[derive(Debug)]
pub struct NewCard<'a> {
    pub realm_id: i64,
    pub exp_month: i64,
    pub exp_year: i64,
    pub fingerprint: &'a str,
    pub created_by: Option<i64>,
}

pub const SECS_PER_DAY: i64 = 86400;

/// Seconds between two rounds of the coupon supervisor: a minute outside
/// production, eight hours in production.
pub fn supervise_interval_secs(is_prod: bool) -> (r: u64)
    ensures
        r == (if is_prod { 28800u64 } else { 60u64 }),
{
    if is_prod { 8 * 3600 } else { 60 }
}

/// Seconds a reminder waits before it is sent: a minute outside production,
/// an hour in production.
pub fn notice_delay_secs(is_prod: bool) -> (r: i64)
    ensures
        r == (if is_prod { 3600i64 } else { 60i64 }),
{
    if is_prod { 3600 } else { 60 }
}

/// An obtained coupon is reminded of when it is unused and expires more than
/// 14 and less than 15 days from `now` (seconds since the epoch).
pub open spec fn due_for_reminder_spec(is_used: bool, expires_at: Option<i64>, now: int) -> bool {
    &&& !is_used
    &&& expires_at matches Some(e)
    &&& now + 14 * SECS_PER_DAY < e
    &&& e < now + 15 * SECS_PER_DAY
}

pub fn due_for_reminder(is_used: bool, expires_at: Option<i64>, now: i64) -> (r: bool)
    ensures
        r == due_for_reminder_spec(is_used, expires_at, now as int),
{
    if is_used {
        return false;
    }
    match expires_at {
        None => false,
        Some(e) => {
            let lo: i128 = now as i128 + 14 * 86400;
            let hi: i128 = now as i128 + 15 * 86400;
            lo < e as i128 && (e as i128) < hi
        },
    }
}

/// The kind under which the reminder of an obtained coupon to a user is recorded;
/// a second reminder of the same kind is never queued.
pub open spec fn notice_kind_spec(obtained_coupon_id: i64, user_id: i64) -> Seq<char> {
    "obtained_coupon:"@ + int_text(obtained_coupon_id as int) + ":expire_notify:"@ + int_text(
        user_id as int,
    )
}

/// The page of a realm's wallet under a front-end address.
pub open spec fn coupon_url_spec(front_url: Seq<char>, realm_id: i64) -> Seq<char> {
    front_url + "/realms/"@ + int_text(realm_id as int) + "/wallet"@
}

pub fn notice_kind(obtained_coupon_id: i64, user_id: i64) -> (r: String)
    ensures
        r@ == notice_kind_spec(obtained_coupon_id, user_id),
{
    let mut s = "obtained_coupon:".to_string();
    s.append(format_i64(obtained_coupon_id).as_str());
    s.append(":expire_notify:");
    s.append(format_i64(user_id).as_str());
    s
}

pub fn coupon_url(front_url: &str, realm_id: i64) -> (r: String)
    ensures
        r@ == coupon_url_spec(front_url@, realm_id),
{
    let mut s = front_url.to_string();
    s.append("/realms/");
    s.append(format_i64(realm_id).as_str());
    s.append("/wallet");
    s
}

/// A root member of the realm that owns the coupon.
#[derive(Debug)]
pub struct NoticeRecipient {
    pub user_id: i64,
    pub in_kernel: bool,
    pub is_disabled: bool,
    /// The user's master e-mail address, if there is one.
    pub master_email: Option<String>,
}

/// A reminder to be queued.
#[derive(Debug)]
pub struct CouponNotice {
    pub kind: String,
    pub recipient_id: i64,
    pub recipient_email: String,
    pub front_url: String,
    pub coupon_url: String,
}

pub struct NoticeView {
    pub kind: Seq<char>,
    pub recipient_id: i64,
    pub recipient_email: Seq<char>,
    pub front_url: Seq<char>,
    pub coupon_url: Seq<char>,
}

impl View for CouponNotice {
    type V = NoticeView;

    open spec fn view(&self) -> NoticeView {
        NoticeView {
            kind: self.kind@,
            recipient_id: self.recipient_id,
            recipient_email: self.recipient_email@,
            front_url: self.front_url@,
            coupon_url: self.coupon_url@,
        }
    }
}

pub open spec fn notices_view(v: Seq<CouponNotice>) -> Seq<NoticeView> {
    v.map_values(|n: CouponNotice| n@)
}

/// Whether `r` is sent a reminder: enabled, not reminded yet, and with a master address.
pub open spec fn gets_notice(
    r: NoticeRecipient,
    obtained_coupon_id: i64,
    sent_kinds: Seq<Seq<char>>,
) -> bool {
    &&& !r.is_disabled
    &&& !sent_kinds.contains(notice_kind_spec(obtained_coupon_id, r.user_id))
    &&& r.master_email is Some
}

/// The reminder that `r` is sent: members of the kernel are pointed to the
/// management front end, others to the console.
pub open spec fn notice_for(
    r: NoticeRecipient,
    obtained_coupon_id: i64,
    realm_id: i64,
    manage_front_url: Seq<char>,
    console_front_url: Seq<char>,
) -> NoticeView {
    let front = if r.in_kernel { manage_front_url } else { console_front_url };
    NoticeView {
        kind: notice_kind_spec(obtained_coupon_id, r.user_id),
        recipient_id: r.user_id,
        recipient_email: r.master_email->0@,
        front_url: front,
        coupon_url: coupon_url_spec(front, realm_id),
    }
}

/// The reminders for one obtained coupon, in the order of the recipients.
pub open spec fn planned_notices(
    obtained_coupon_id: i64,
    realm_id: i64,
    recipients: Seq<NoticeRecipient>,
    sent_kinds: Seq<Seq<char>>,
    manage_front_url: Seq<char>,
    console_front_url: Seq<char>,
) -> Seq<NoticeView>
    decreases recipients.len(),
{
    if recipients.len() == 0 {
        Seq::empty()
    } else {
        let prev = planned_notices(
            obtained_coupon_id,
            realm_id,
            recipients.drop_last(),
            sent_kinds,
            manage_front_url,
            console_front_url,
        );
        let r = recipients.last();
        if gets_notice(r, obtained_coupon_id, sent_kinds) {
            prev.push(notice_for(r, obtained_coupon_id, realm_id, manage_front_url, console_front_url))
        } else {
            prev
        }
    }
}

/// Decides which root members of a realm are reminded that an obtained coupon
/// is about to expire, given the kinds of the messages already queued.
pub fn plan_coupon_notices(
    obtained_coupon_id: i64,
    realm_id: i64,
    recipients: &Vec<NoticeRecipient>,
    sent_kinds: &Vec<String>,
    manage_front_url: &str,
    console_front_url: &str,
) -> (r: Vec<CouponNotice>)
    ensures
        notices_view(r@) == planned_notices(
            obtained_coupon_id,
            realm_id,
            recipients@,
            views_of(sent_kinds@),
            manage_front_url@,
            console_front_url@,
        ),
{
    let ghost sent = views_of(sent_kinds@);
    let mut out: Vec<CouponNotice> = Vec::new();
    let mut i: usize = 0;
    while i < recipients.len()
        invariant
            i <= recipients@.len(),
            sent == views_of(sent_kinds@),
            notices_view(out@) == planned_notices(
                obtained_coupon_id,
                realm_id,
                recipients@.take(i as int),
                sent,
                manage_front_url@,
                console_front_url@,
            ),
        decreases recipients@.len() - i,
    {
        let r = &recipients[i];
        assert(recipients@.take(i + 1).drop_last() =~= recipients@.take(i as int));
        let kind = notice_kind(obtained_coupon_id, r.user_id);
        let already = strings_contain(sent_kinds, kind.as_str());
        proof {
            if already {
                let k = choose|k: int| 0 <= k < sent_kinds@.len() && (#[trigger] sent_kinds@[k])@ == kind@;
                assert(sent[k] == kind@);
            } else {
                assert forall|k: int| 0 <= k < sent.len() implies sent[k] != kind@ by {
                    assert(sent[k] == sent_kinds@[k]@);
                }
            }
        }
        if !r.is_disabled && !already {
            match &r.master_email {
                Some(email) => {
                    let front = if r.in_kernel { manage_front_url } else { console_front_url };
                    let n = CouponNotice {
                        kind,
                        recipient_id: r.user_id,
                        recipient_email: email.clone(),
                        front_url: front.to_string(),
                        coupon_url: coupon_url(front, realm_id),
                    };
                    out.push(n);
                    assert(notices_view(out@) =~= notices_view(out@.drop_last()).push(n@));
                },
                None => {},
            }
        }
        i = i + 1;
    }
    assert(recipients@.take(i as int) =~= recipients@);
    out
}

/// Reminders are not repeated: once the kinds of the planned reminders are
/// recorded (beside those recorded before), planning again for the same
/// coupon and recipients queues nothing.
pub proof fn lemma_reminders_not_repeated(
    obtained_coupon_id: i64,
    realm_id: i64,
    recipients: Seq<NoticeRecipient>,
    sent_kinds: Seq<Seq<char>>,
    later_kinds: Seq<Seq<char>>,
    manage_front_url: Seq<char>,
    console_front_url: Seq<char>,
)
    requires
        forall|k: Seq<char>| sent_kinds.contains(k) ==> later_kinds.contains(k),
        forall|i: int|
            0 <= i < planned_notices(
                obtained_coupon_id,
                realm_id,
                recipients,
                sent_kinds,
                manage_front_url,
                console_front_url,
            ).len() ==> later_kinds.contains(
                #[trigger] planned_notices(
                    obtained_coupon_id,
                    realm_id,
                    recipients,
                    sent_kinds,
                    manage_front_url,
                    console_front_url,
                )[i].kind,
            ),
    ensures
        planned_notices(
            obtained_coupon_id,
            realm_id,
            recipients,
            later_kinds,
            manage_front_url,
            console_front_url,
        ).len() == 0,
    decreases recipients.len(),
{
    if recipients.len() > 0 {
        let rest = recipients.drop_last();
        let prev = planned_notices(
            obtained_coupon_id,
            realm_id,
            rest,
            sent_kinds,
            manage_front_url,
            console_front_url,
        );
        let all = planned_notices(
            obtained_coupon_id,
            realm_id,
            recipients,
            sent_kinds,
            manage_front_url,
            console_front_url,
        );
        assert forall|i: int| 0 <= i < prev.len() implies later_kinds.contains(#[trigger] prev[i].kind) by {
            assert(all[i] == prev[i]);
        }
        lemma_reminders_not_repeated(
            obtained_coupon_id,
            realm_id,
            rest,
            sent_kinds,
            later_kinds,
            manage_front_url,
            console_front_url,
        );
        let r = recipients.last();
        if gets_notice(r, obtained_coupon_id, sent_kinds) {
            assert(all[all.len() - 1].kind == notice_kind_spec(obtained_coupon_id, r.user_id));
        }
    }
}

/// Every reminder goes to an enabled recipient that has a master address, under
/// a kind not queued before, and points it to its own front end.
pub proof fn lemma_reminders_go_to_reachable_roots(
    obtained_coupon_id: i64,
    realm_id: i64,
    recipients: Seq<NoticeRecipient>,
    sent_kinds: Seq<Seq<char>>,
    manage_front_url: Seq<char>,
    console_front_url: Seq<char>,
)
    ensures
        forall|k: int|
            0 <= k < planned_notices(
                obtained_coupon_id,
                realm_id,
                recipients,
                sent_kinds,
                manage_front_url,
                console_front_url,
            ).len() ==> {
                let n = #[trigger] planned_notices(
                    obtained_coupon_id,
                    realm_id,
                    recipients,
                    sent_kinds,
                    manage_front_url,
                    console_front_url,
                )[k];
                &&& !sent_kinds.contains(n.kind)
                &&& exists|i: int|
                    0 <= i < recipients.len() && gets_notice(recipients[i], obtained_coupon_id, sent_kinds)
                        && n == notice_for(recipients[i], obtained_coupon_id, realm_id, manage_front_url, console_front_url)
            },
    decreases recipients.len(),
{
    if recipients.len() > 0 {
        let rest = recipients.drop_last();
        lemma_reminders_go_to_reachable_roots(
            obtained_coupon_id,
            realm_id,
            rest,
            sent_kinds,
            manage_front_url,
            console_front_url,
        );
        let prev = planned_notices(obtained_coupon_id, realm_id, rest, sent_kinds, manage_front_url, console_front_url);
        let all = planned_notices(obtained_coupon_id, realm_id, recipients, sent_kinds, manage_front_url, console_front_url);
        let r = recipients.last();
        assert forall|k: int| 0 <= k < all.len() implies {
            let n = #[trigger] all[k];
            &&& !sent_kinds.contains(n.kind)
            &&& exists|i: int|
                0 <= i < recipients.len() && gets_notice(recipients[i], obtained_coupon_id, sent_kinds)
                    && n == notice_for(recipients[i], obtained_coupon_id, realm_id, manage_front_url, console_front_url)
        } by {
            if k < prev.len() {
                assert(all[k] == prev[k]);
                let i = choose|i: int|
                    0 <= i < rest.len() && gets_notice(rest[i], obtained_coupon_id, sent_kinds)
                        && prev[k] == notice_for(rest[i], obtained_coupon_id, realm_id, manage_front_url, console_front_url);
                assert(recipients[i] == rest[i]);
            } else {
                assert(gets_notice(r, obtained_coupon_id, sent_kinds));
                assert(all[k] == notice_for(r, obtained_coupon_id, realm_id, manage_front_url, console_front_url));
                assert(recipients[recipients.len() - 1] == r);
            }
        }
    }
}

} // verus!
