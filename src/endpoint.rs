//! The addresses and the form body of the registration service.
use vstd::prelude::*;
use crate::text::{chars_of, push_char};

verus! {

/// Root of the registration service.
pub const BASE_URL: &'static str = "https://preregister.hytopia.com";

/// Path and query of the default registration endpoint.
pub const DEFAULT_ROUTE: &'static str = "/?_data=routes/_index";

/// Query that follows the referral code in a referral endpoint.
pub const REFERRER_ROUTE: &'static str = "/?_data=player-by-referrer";

/// Parameter that carries the username in an availability query.
pub const USERNAME_PARAM: &'static str = "&username=";

/// Anchor page of the challenge widget that guards registration.
pub const ANCHOR_URL: &'static str = "https://www.google.com/recaptcha/api2/anchor?ar=1&k=6Leqr00oAAAAAN3ItHtrGkMpHiOtENMkG87lq2fq&co=aHR0cHM6Ly9wcmVyZWdpc3Rlci5oeXRvcGlhLmNvbTo0NDM.&hl=ru&type=image&v=Ai7lOI0zKMDPHxlv62g7oMoJ&theme=dark&size=invisible&badge=bottomright&cb=bmwunnu5dq8d";

/// Content type of the registration form.
pub const FORM_CONTENT_TYPE: &'static str = "application/x-www-form-urlencoded;charset=UTF-8";

/// The view of an optional string.
pub open spec fn opt_view(o: Option<String>) -> Option<Seq<char>> {
    match o {
        Some(s) => Some(s@),
        None => None,
    }
}

/// The endpoint a registration goes to: the referral endpoint when a referral
/// code is given, the default one otherwise.
pub open spec fn url_for(referral: Option<Seq<char>>) -> Seq<char> {
    match referral {
        Some(code) => BASE_URL@ + seq!['/'] + code + REFERRER_ROUTE@,
        None => BASE_URL@ + DEFAULT_ROUTE@,
    }
}

/// The query that asks whether `username` is still free.
pub open spec fn availability_url_for(referral: Option<Seq<char>>, username: Seq<char>) -> Seq<char> {
    url_for(referral) + USERNAME_PARAM@ + username
}

/// Selects the registration endpoint for an optional referral code.
pub fn get_url(referral: Option<String>) -> (r: String)
    ensures
        r@ == url_for(opt_view(referral)),
{
    let mut url = String::from_str(BASE_URL);
    match referral {
        Some(code) => {
            url.append("/");
            proof {
                reveal_strlit("/");
            }
            url.append(code.as_str());
            url.append(REFERRER_ROUTE);
        },
        None => {
            url.append(DEFAULT_ROUTE);
        },
    }
    url
}


/// Builds the availability query for `username` at the endpoint that the
/// referral code selects.
pub fn availability_url(referral: Option<String>, username: &str) -> (r: String)
    ensures
        r@ == availability_url_for(opt_view(referral), username@),
{
    let mut url = get_url(referral);
    url.append(USERNAME_PARAM);
    url.append(username);
    url
}

/// What a form value becomes for one of its characters: the characters that
/// would split or reinterpret a urlencoded field are percent-encoded, every
/// other character stands as it is.
pub open spec fn escape_char(c: char) -> Seq<char> {
    if c == '&' {
        seq!['%', '2', '6']
    } else if c == '=' {
        seq!['%', '3', 'D']
    } else if c == '+' {
        seq!['%', '2', 'B']
    } else if c == '%' {
        seq!['%', '2', '5']
    } else {
        seq![c]
    }
}

/// A form value with each of its characters escaped.
pub open spec fn escape_value(s: Seq<char>) -> Seq<char>
    decreases s.len(),
{
    if s.len() == 0 {
        Seq::empty()
    } else {
        escape_value(s.drop_last()) + escape_char(s.last())
    }
}

/// The registration form for one identity and one challenge token.
pub open spec fn form_body(username: Seq<char>, email: Seq<char>, token: Seq<char>) -> Seq<char> {
    "username="@ + escape_value(username) + "&email="@ + escape_value(email)
        + "&g-recaptcha-response="@ + escape_value(token)
}

/// Appends `value` to `out` with the characters of `escape_char` encoded.
pub fn push_escaped(out: &mut String, value: &str)
    ensures
        final(out)@ == old(out)@ + escape_value(value@),
{
    let cs = chars_of(value);
    let ghost start = out@;
    let mut i: usize = 0;
    while i < cs.len()
        invariant
            cs@ == value@,
            i <= cs@.len(),
            out@ == start + escape_value(value@.subrange(0, i as int)),
        decreases cs.len() - i,
    {
        let c = cs[i];
        let ghost before = out@;
        if c == '&' {
            out.append("%26");
            proof { reveal_strlit("%26"); }
        } else if c == '=' {
            out.append("%3D");
            proof { reveal_strlit("%3D"); }
        } else if c == '+' {
            out.append("%2B");
            proof { reveal_strlit("%2B"); }
        } else if c == '%' {
            out.append("%25");
            proof { reveal_strlit("%25"); }
        } else {
            push_char(out, c);
        }
        assert(out@ =~= before + escape_char(c));
        assert(value@.subrange(0, i + 1).drop_last() =~= value@.subrange(0, i as int));
        i = i + 1;
    }
    assert(value@.subrange(0, cs.len() as int) =~= value@);
}

/// Builds the urlencoded registration form.
pub fn registration_form(username: &str, email: &str, token: &str) -> (r: String)
    ensures
        r@ == form_body(username@, email@, token@),
{
    let mut body = String::from_str("username=");
    push_escaped(&mut body, username);
    body.append("&email=");
    push_escaped(&mut body, email);
    body.append("&g-recaptcha-response=");
    push_escaped(&mut body, token);
    body
}

} // verus!
