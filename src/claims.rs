use vstd::prelude::*;

use crate::text::{plain_char, has_at, int_at, int_text, is_digit, push_int, read_int, scan_plain, text_at};

verus! {

/// Seconds for which an issued token stays valid: 24 hours.
pub const VALIDITY_SECS: i64 = 86400;

/// The identity claims carried by a token: subject, user id (the text of
/// the user's identifier), expiry and issue time in seconds since the epoch.
#[derive(Debug, Clone, PartialEq, Eq)]
pub struct Claims {
    pub sub: String,
    pub user_id: String,
    pub exp: i64,
    pub iat: i64,
}

/// The mathematical value of a claim set.
pub struct ClaimsView {
    pub sub: Seq<char>,
    pub user_id: Seq<char>,
    pub exp: i64,
    pub iat: i64,
}

impl View for Claims {
    type V = ClaimsView;

    open spec fn view(&self) -> ClaimsView {
        ClaimsView { sub: self.sub@, user_id: self.user_id@, exp: self.exp, iat: self.iat }
    }
}

/// Text that can stand between quotes in JSON without escaping.
pub open spec fn plain(s: Seq<char>) -> bool {
    forall|i: int| 0 <= i < s.len() ==> plain_char(#[trigger] s[i])
}

/// A claim set whose strings need no escaping.
pub open spec fn claims_plain(c: ClaimsView) -> bool {
    plain(c.sub) && plain(c.user_id)
}

/// The claims of a token issued to `user_id` at time `now`.
pub open spec fn issued_claims(user_id: Seq<char>, now: i64) -> ClaimsView {
    ClaimsView { sub: user_id, user_id, exp: (now + VALIDITY_SECS) as i64, iat: now }
}

impl Claims {
    /// The claims for `user_id` issued at `now`: the subject is the user id,
    /// and the expiry lies one validity window after the issue time.
    pub fn new(user_id: &str, now: i64) -> (r: Claims)
        requires
            now <= i64::MAX - VALIDITY_SECS,
        ensures
            r@ == issued_claims(user_id@, now),
            r.iat <= r.exp,
    {
        Claims { sub: user_id.to_owned(), user_id: user_id.to_owned(), exp: now + VALIDITY_SECS, iat: now }
    }
}

/// The JSON text that a token carries for a claim set: one compact object
/// with the fields in a fixed order.
pub open spec fn claims_text(c: ClaimsView) -> Seq<char> {
    "{\"sub\":\""@ + c.sub + "\",\"user_id\":\""@ + c.user_id + "\",\"exp\":"@ + int_text(
        c.exp as int,
    ) + ",\"iat\":"@ + int_text(c.iat as int) + "}"@
}

pub open spec fn end_sub(c: ClaimsView) -> int {
    8 + c.sub.len() as int
}

pub open spec fn end_user_id(c: ClaimsView) -> int {
    end_sub(c) + 13 + c.user_id.len()
}

pub open spec fn end_exp(c: ClaimsView) -> int {
    end_user_id(c) + 8 + int_text(c.exp as int).len()
}

pub open spec fn end_iat(c: ClaimsView) -> int {
    end_exp(c) + 7 + int_text(c.iat as int).len()
}

/// Where each part of a claim set stands in its text.
pub proof fn lemma_layout(c: ClaimsView)
    requires
        claims_plain(c),
    ensures
        ({
            let t = claims_text(c);
            &&& t.len() == end_iat(c) + 1
            &&& text_at(t, 0, "{\"sub\":\""@)
            &&& t.subrange(8, end_sub(c)) == c.sub
            &&& text_at(t, end_sub(c), "\",\"user_id\":\""@)
            &&& t[end_sub(c)] == '"'
            &&& t.subrange(end_sub(c) + 13, end_user_id(c)) == c.user_id
            &&& text_at(t, end_user_id(c), "\",\"exp\":"@)
            &&& t[end_user_id(c)] == '"'
            &&& int_at(t, end_user_id(c) + 8, c.exp as int)
            &&& text_at(t, end_exp(c), ",\"iat\":"@)
            &&& int_at(t, end_exp(c) + 7, c.iat as int)
            &&& text_at(t, end_iat(c), "}"@)
        }),
{
    reveal_strlit("{\"sub\":\"");
    reveal_strlit("\",\"user_id\":\"");
    reveal_strlit("\",\"exp\":");
    reveal_strlit(",\"iat\":");
    reveal_strlit("}");
    let t = claims_text(c);
    let l1 = "{\"sub\":\""@;
    let l2 = "\",\"user_id\":\""@;
    let l3 = "\",\"exp\":"@;
    let l4 = ",\"iat\":"@;
    let l5 = "}"@;
    let x = int_text(c.exp as int);
    let y = int_text(c.iat as int);
    assert(t =~= l1 + c.sub + l2 + c.user_id + l3 + x + l4 + y + l5);
    assert(t.subrange(0, 8) =~= l1);
    assert(t.subrange(8, end_sub(c)) =~= c.sub);
    assert(t.subrange(end_sub(c), end_sub(c) + 13) =~= l2);
    assert(t[end_sub(c)] == l2[0]);
    assert(t.subrange(end_sub(c) + 13, end_user_id(c)) =~= c.user_id);
    assert(t.subrange(end_user_id(c), end_user_id(c) + 8) =~= l3);
    assert(t[end_user_id(c)] == l3[0]);
    assert(t.subrange(end_user_id(c) + 8, end_exp(c)) =~= x);
    assert(t[end_exp(c)] == l4[0]);
    assert(t.subrange(end_exp(c), end_exp(c) + 7) =~= l4);
    assert(t.subrange(end_exp(c) + 7, end_iat(c)) =~= y);
    assert(t[end_iat(c)] == l5[0]);
    assert(t.subrange(end_iat(c), end_iat(c) + 1) =~= l5);
}

/// Two plain strings that both stand at `start` and are both followed by a
/// quote are the same string.
proof fn lemma_plain_unique(t: Seq<char>, start: int, x: Seq<char>, y: Seq<char>)
    requires
        0 <= start,
        start + x.len() < t.len(),
        start + y.len() < t.len(),
        t.subrange(start, start + x.len()) == x,
        t.subrange(start, start + y.len()) == y,
        plain(x),
        plain(y),
        t[start + x.len()] == '"',
        t[start + y.len()] == '"',
    ensures
        x == y,
{
    if x.len() < y.len() {
        assert(t[start + x.len()] == y[x.len() as int]);
    } else if y.len() < x.len() {
        assert(t[start + y.len()] == x[y.len() as int]);
    } else {
        assert(x =~= y);
    }
}

/// Two claim sets whose strings need no escaping have the same text only
/// when they are equal.
pub proof fn lemma_text_injective(a: ClaimsView, b: ClaimsView)
    requires
        claims_plain(a),
        claims_plain(b),
        claims_text(a) == claims_text(b),
    ensures
        a == b,
{
    lemma_layout(a);
    lemma_layout(b);
    let t = claims_text(a);
    lemma_plain_unique(t, 8, a.sub, b.sub);
    lemma_plain_unique(t, end_sub(a) + 13, a.user_id, b.user_id);
    crate::text::lemma_int_unique(t, end_user_id(a) + 8, a.exp as int, b.exp as int);
    crate::text::lemma_int_unique(t, end_exp(a) + 7, a.iat as int, b.iat as int);
}

/// Writes the claim set as the text a token carries.
pub fn render_claims(c: &Claims) -> (r: String)
    ensures
        r@ == claims_text(c@),
{
    let mut t = String::new();
    t.append("{\"sub\":\"");
    t.append(c.sub.as_str());
    t.append("\",\"user_id\":\"");
    t.append(c.user_id.as_str());
    t.append("\",\"exp\":");
    push_int(&mut t, c.exp);
    t.append(",\"iat\":");
    push_int(&mut t, c.iat);
    t.append("}");
    assert(t@ =~= claims_text(c@));
    t
}

/// Reads a claim set back from the text a token carries. It succeeds
/// exactly on the texts that `render_claims` writes for claim sets whose
/// strings need no escaping, and gives back that claim set.
pub fn parse_claims(s: &str) -> (r: Option<Claims>)
    ensures
        r matches Some(c) ==> claims_plain(c@) && claims_text(c@) == s@,
        forall|c: ClaimsView| claims_plain(c) && #[trigger] claims_text(c) == s@ ==> r is Some && r.unwrap()@ == c,
{
    proof {
        reveal_strlit("{\"sub\":\"");
        reveal_strlit("\",\"user_id\":\"");
        reveal_strlit("\",\"exp\":");
        reveal_strlit(",\"iat\":");
        reveal_strlit("}");
        assert forall|c: ClaimsView| claims_plain(c) && #[trigger] claims_text(c) == s@ implies ({
            let t = claims_text(c);
            &&& t.len() == end_iat(c) + 1
            &&& text_at(t, 0, "{\"sub\":\""@)
            &&& t.subrange(8, end_sub(c)) == c.sub
            &&& text_at(t, end_sub(c), "\",\"user_id\":\""@)
            &&& t[end_sub(c)] == '"'
            &&& t.subrange(end_sub(c) + 13, end_user_id(c)) == c.user_id
            &&& text_at(t, end_user_id(c), "\",\"exp\":"@)
            &&& t[end_user_id(c)] == '"'
            &&& int_at(t, end_user_id(c) + 8, c.exp as int)
            &&& text_at(t, end_exp(c), ",\"iat\":"@)
            &&& int_at(t, end_exp(c) + 7, c.iat as int)
            &&& text_at(t, end_iat(c), "}"@)
        }) by {
            lemma_layout(c);
        }
    }
    let n = s.unicode_len();
    if !has_at(s, n, 0, "{\"sub\":\"") {
        return None;
    }
    let p1: usize = 8;
    let e1 = scan_plain(s, n, p1);
    proof {
        assert forall|c: ClaimsView| claims_plain(c) && #[trigger] claims_text(c) == s@ implies e1 == end_sub(c) by {
            if e1 < end_sub(c) {
                assert(s@[e1 as int] == s@.subrange(8, end_sub(c))[e1 - 8]);
            }
        }
    }
    if !has_at(s, n, e1, "\",\"user_id\":\"") {
        return None;
    }
    let p2: usize = e1 + 13;
    let e2 = scan_plain(s, n, p2);
    proof {
        assert forall|c: ClaimsView| claims_plain(c) && #[trigger] claims_text(c) == s@ implies e2 == end_user_id(c) by {
            if e2 < end_user_id(c) {
                assert(s@[e2 as int] == s@.subrange(end_sub(c) + 13, end_user_id(c))[e2 - p2]);
            }
        }
    }
    if !has_at(s, n, e2, "\",\"exp\":") {
        return None;
    }
    let exp = match read_int(s, n, e2 + 8) {
        Some(x) => x,
        None => {
            return None;
        },
    };
    let (exp, e3) = exp;
    if !has_at(s, n, e3, ",\"iat\":") {
        return None;
    }
    let iat = match read_int(s, n, e3 + 7) {
        Some(x) => x,
        None => {
            return None;
        },
    };
    let (iat, e4) = iat;
    if !has_at(s, n, e4, "}") || e4 + 1 != n {
        return None;
    }
    let sub = s.substring_char(p1, e1).to_owned();
    let user_id = s.substring_char(p2, e2).to_owned();
    let c = Claims { sub, user_id, exp, iat };
    assert(s@ =~= claims_text(c@));
    Some(c)
}

} // verus!
