use vstd::prelude::*;

verus! {

/// The mail providers that an account can sign in with.
#[derive(Clone, Copy, Debug, PartialEq, Eq, Structural)]
pub enum OAuthEmailProvider {
    Google,
    Microsoft,
}

/// The name under which a provider is stored and routed.
pub open spec fn provider_name(p: OAuthEmailProvider) -> Seq<char> {
    match p {
        OAuthEmailProvider::Google => "google"@,
        OAuthEmailProvider::Microsoft => "microsoft"@,
    }
}

impl OAuthEmailProvider {
    /// The provider's name: `"google"` or `"microsoft"`.
    pub fn as_str(&self) -> (s: &'static str)
        ensures
            s@ == provider_name(*self),
    {
        match self {
            OAuthEmailProvider::Google => "google",
            OAuthEmailProvider::Microsoft => "microsoft",
        }
    }

    /// The provider stored under `name`, if any.
    pub fn from_name(name: &str) -> (r: Option<Self>)
        ensures
            match r {
                Some(p) => provider_name(p) == name@,
                None => forall|p: OAuthEmailProvider| provider_name(p) != name@,
            },
    {
        let n = name.to_owned();
        if n == "google".to_owned() {
            Some(OAuthEmailProvider::Google)
        } else if n == "microsoft".to_owned() {
            Some(OAuthEmailProvider::Microsoft)
        } else {
            proof {
                assert forall|p: OAuthEmailProvider| provider_name(p) != name@ by {
                    match p {
                        OAuthEmailProvider::Google => {},
                        OAuthEmailProvider::Microsoft => {},
                    }
                }
            }
            None
        }
    }
}

/// Two different providers never share a name, so a stored or routed name
/// tells the provider back.
pub proof fn lemma_provider_names_distinct(a: OAuthEmailProvider, b: OAuthEmailProvider)
    requires
        a != b,
    ensures
        provider_name(a) != provider_name(b),
{
    reveal_strlit("google");
    reveal_strlit("microsoft");
    assert(provider_name(OAuthEmailProvider::Google).len() != provider_name(OAuthEmailProvider::Microsoft).len());
}

/// Reading back the name a provider is stored under gives that provider.
pub proof fn lemma_name_round_trip(p: OAuthEmailProvider, q: OAuthEmailProvider)
    ensures
        provider_name(q) == provider_name(p) <==> q == p,
{
    if q != p {
        lemma_provider_names_distinct(p, q);
    }
}

} // verus!
