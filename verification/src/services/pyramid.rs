//! The referral service: the address of a lookup and what its reply means.
use crate::data::config::Referral;
use crate::external::{url_encode, url_encoded};
use crate::text::text_view;
use vstd::prelude::*;

verus! {

/// One code as the service reports it; either part may be missing.
pub struct ReferralCode {
    pub code: Option<String>,
    pub code_type: Option<String>,
}

/// The reply that says the user has no codes.
pub open spec fn user_not_found() -> Seq<char> {
    "User not found"@
}

/// The address of a lookup of the codes of `slack_id` in a campaign.
pub open spec fn lookup_url(base: Seq<char>, slack_id: Seq<char>, campaign_slug: Seq<char>) -> Seq<
    char,
> {
    base + "/api/v1/codes/lookup?slack_id="@ + url_encoded(slack_id) + "&campaign_slug="@
        + campaign_slug
}

/// Builds the address of a lookup.
pub fn codes_lookup_url(base: &str, slack_id: &str, campaign_slug: &str) -> (url: String)
    ensures
        url@ == lookup_url(base@, slack_id@, campaign_slug@),
{
    let mut url = String::from_str(base);
    url.append("/api/v1/codes/lookup?slack_id=");
    url.append(url_encode(slack_id).as_str());
    url.append("&campaign_slug=");
    url.append(campaign_slug);
    url
}

/// The code and kind of each reported code that has both, in order.
pub open spec fn complete_codes(codes: Seq<ReferralCode>) -> Seq<(Seq<char>, Seq<char>)>
    decreases codes.len(),
{
    if codes.len() == 0 {
        Seq::empty()
    } else {
        let rest = complete_codes(codes.drop_last());
        match (codes.last().code, codes.last().code_type) {
            (Some(code), Some(code_type)) => rest.push((code@, code_type@)),
            _ => rest,
        }
    }
}

/// The code and kind of each referral, in order.
pub open spec fn referral_views(referrals: Seq<Referral>) -> Seq<(Seq<char>, Seq<char>)> {
    Seq::new(referrals.len(), |i: int| (referrals[i].code@, referrals[i].code_type@))
}

/// Reads the reply to a lookup. "User not found" means no codes; any other
/// error is passed on; without an error the codes that have both a code and
/// a kind are kept, in order.
pub fn referrals_from_lookup(error: &Option<String>, codes: &Vec<ReferralCode>) -> (referrals:
    Result<Vec<Referral>, String>)
    ensures
        match text_view(*error) {
            Some(message) => if message == user_not_found() {
                referrals is Ok && referrals->Ok_0@.len() == 0
            } else {
                referrals is Err && referrals->Err_0@ == message
            },
            None => referrals is Ok && referral_views(referrals->Ok_0@) == complete_codes(codes@),
        },
{
    match error {
        Some(message) => {
            let not_found = String::from_str("User not found");
            if *message == not_found {
                return Ok(Vec::new());
            } else {
                return Err(message.clone());
            }
        },
        None => {},
    }
    let n: usize = codes.len();
    let mut kept: Vec<Referral> = Vec::new();
    let mut at: usize = 0;
    proof {
        assert(codes@.subrange(0, 0) =~= Seq::<ReferralCode>::empty());
        assert(referral_views(kept@) =~= complete_codes(codes@.subrange(0, 0)));
    }
    while at < n
        invariant
            n == codes@.len(),
            at <= n,
            referral_views(kept@) == complete_codes(codes@.subrange(0, at as int)),
        decreases n - at,
    {
        let ghost before = codes@.subrange(0, at as int);
        let ghost after = codes@.subrange(0, at + 1);
        let ghost kept_before = kept@;
        proof {
            assert(after.drop_last() =~= before);
            assert(after.last() == codes@[at as int]);
        }
        match &codes[at].code {
            Some(code) => match &codes[at].code_type {
                Some(code_type) => {
                    kept.push(Referral { code: code.clone(), code_type: code_type.clone() });
                    proof {
                        assert(referral_views(kept@) =~= referral_views(kept_before).push(
                            (code@, code_type@),
                        ));
                    }
                },
                None => {},
            },
            None => {},
        }
        at += 1;
    }
    proof {
        assert(codes@.subrange(0, n as int) =~= codes@);
    }
    Ok(kept)
}

} // verus!
