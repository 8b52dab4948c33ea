//! Pairing emails with proxies into registration identities.
use vstd::prelude::*;
use crate::endpoint::opt_view;

verus! {

/// One registration identity: a generated username, an email, the referral
/// code shared by the whole run, and the proxy its traffic goes through.
#[derive(Clone, Debug)]
pub struct Identity {
    pub username: String,
    pub email: String,
    pub referral: Option<String>,
    pub proxy: Option<String>,
}

/// What an identity holds, as sequences of characters.
pub struct IdentityView {
    pub username: Seq<char>,
    pub email: Seq<char>,
    pub referral: Option<Seq<char>>,
    pub proxy: Option<Seq<char>>,
}

impl View for Identity {
    type V = IdentityView;

    open spec fn view(&self) -> IdentityView {
        IdentityView {
            username: self.username@,
            email: self.email@,
            referral: opt_view(self.referral),
            proxy: opt_view(self.proxy),
        }
    }
}

/// Why no identity could be built.
#[derive(Clone, Copy, Debug, PartialEq, Eq, Structural)]
pub enum ConfigError {
    /// The email list holds no address.
    NoEmails,
}

/// How many identities a run gets: one per email without proxies; with
/// proxies, one per position that has both an email and a proxy, so emails
/// past the last proxy are left out.
pub open spec fn pair_count(n_emails: nat, n_proxies: nat) -> nat {
    if n_proxies == 0 {
        n_emails
    } else if n_emails <= n_proxies {
        n_emails
    } else {
        n_proxies
    }
}

/// The views of a list of strings.
pub open spec fn views(v: Seq<String>) -> Seq<Seq<char>> {
    v.map_values(|s: String| s@)
}

/// The identity at position `i`: the `i`-th name and email, the shared
/// referral code, and the `i`-th proxy when there are proxies.
pub open spec fn identity_at(
    emails: Seq<Seq<char>>,
    proxies: Seq<Seq<char>>,
    referral: Option<Seq<char>>,
    names: Seq<Seq<char>>,
    i: int,
) -> IdentityView {
    IdentityView {
        username: names[i],
        email: emails[i],
        referral: referral,
        proxy: if proxies.len() == 0 { None } else { Some(proxies[i]) },
    }
}

/// The identities of a run, in the order of the emails.
pub open spec fn paired(
    emails: Seq<Seq<char>>,
    proxies: Seq<Seq<char>>,
    referral: Option<Seq<char>>,
    names: Seq<Seq<char>>,
) -> Seq<IdentityView> {
    Seq::new(
        pair_count(emails.len(), proxies.len()),
        |i: int| identity_at(emails, proxies, referral, names, i),
    )
}

/// The number of identities a run with these list lengths gets.
pub fn pairing_len(n_emails: usize, n_proxies: usize) -> (r: usize)
    ensures
        r == pair_count(n_emails as nat, n_proxies as nat),
{
    if n_proxies == 0 || n_emails <= n_proxies {
        n_emails
    } else {
        n_proxies
    }
}

fn clone_opt(o: &Option<String>) -> (r: Option<String>)
    ensures
        opt_view(r) == opt_view(*o),
{
    match o {
        Some(s) => Some(s.clone()),
        None => None,
    }
}

/// Builds the identities of a run. `names` holds one generated username for
/// each identity, in order. An empty email list is refused.
pub fn pair_identities(
    emails: &Vec<String>,
    proxies: &Vec<String>,
    referral: &Option<String>,
    names: &Vec<String>,
) -> (r: Result<Vec<Identity>, ConfigError>)
    requires
        names@.len() == pair_count(emails@.len(), proxies@.len()),
    ensures
        r is Err <==> emails@.len() == 0,
        r is Err ==> r == Err::<Vec<Identity>, ConfigError>(ConfigError::NoEmails),
        r matches Ok(ids) ==> ids@.map_values(|id: Identity| id@) == paired(
            views(emails@),
            views(proxies@),
            opt_view(*referral),
            views(names@),
        ),
{
    if emails.len() == 0 {
        return Err(ConfigError::NoEmails);
    }
    let n = pairing_len(emails.len(), proxies.len());
    let ghost target = paired(views(emails@), views(proxies@), opt_view(*referral), views(names@));
    let mut ids: Vec<Identity> = Vec::new();
    let mut i: usize = 0;
    while i < n
        invariant
            n == pair_count(emails@.len(), proxies@.len()),
            n <= emails@.len(),
            proxies@.len() > 0 ==> n <= proxies@.len(),
            names@.len() == n,
            i <= n,
            target == paired(views(emails@), views(proxies@), opt_view(*referral), views(names@)),
            ids@.len() == i,
            forall|k: int| 0 <= k < i ==> (#[trigger] ids@[k])@ == target[k],
        decreases n - i,
    {
        let proxy = if proxies.len() == 0 {
            None
        } else {
            Some(proxies[i].clone())
        };
        let id = Identity {
            username: names[i].clone(),
            email: emails[i].clone(),
            referral: clone_opt(referral),
            proxy,
        };
        assert(id@ == target[i as int]);
        ids.push(id);
        i = i + 1;
    }
    assert(ids@.map_values(|id: Identity| id@) =~= target);
    Ok(ids)
}


/// Without proxies every email gets exactly one identity, in order, and no
/// identity has a proxy.
pub proof fn lemma_pairing_without_proxies(
    emails: Seq<Seq<char>>,
    referral: Option<Seq<char>>,
    names: Seq<Seq<char>>,
)
    requires
        emails.len() > 0,
        names.len() == emails.len(),
    ensures
        paired(emails, Seq::empty(), referral, names).len() == emails.len(),
        forall|i: int|
            0 <= i < emails.len() ==> {
                let id = #[trigger] paired(emails, Seq::empty(), referral, names)[i];
                &&& id.email == emails[i]
                &&& id.proxy is None
            },
{
}

/// With fewer proxies than emails there are as many identities as proxies:
/// the emails past the last proxy are dropped, the others keep their order.
pub proof fn lemma_pairing_truncates_to_proxies(
    emails: Seq<Seq<char>>,
    proxies: Seq<Seq<char>>,
    referral: Option<Seq<char>>,
    names: Seq<Seq<char>>,
)
    requires
        0 < proxies.len() < emails.len(),
        names.len() == proxies.len(),
    ensures
        paired(emails, proxies, referral, names).len() == proxies.len(),
        forall|i: int|
            0 <= i < proxies.len() ==> {
                let id = #[trigger] paired(emails, proxies, referral, names)[i];
                &&& id.email == emails[i]
                &&& id.proxy == Some(proxies[i])
            },
{
}

/// With at least as many proxies as emails every email gets one identity,
/// and the identity at position `i` goes through the proxy at position `i`.
pub proof fn lemma_pairing_by_position(
    emails: Seq<Seq<char>>,
    proxies: Seq<Seq<char>>,
    referral: Option<Seq<char>>,
    names: Seq<Seq<char>>,
)
    requires
        0 < emails.len() <= proxies.len(),
        names.len() == emails.len(),
    ensures
        paired(emails, proxies, referral, names).len() == emails.len(),
        forall|i: int|
            0 <= i < emails.len() ==> {
                let id = #[trigger] paired(emails, proxies, referral, names)[i];
                &&& id.email == emails[i]
                &&& id.proxy == Some(proxies[i])
            },
{
}

} // verus!
