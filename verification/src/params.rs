use vstd::prelude::*;
use crate::strmap::StrMap;

verus! {

/// The parameters that Google hands back to the redirect URL.
#[derive(Debug)]
pub struct GoogleOAuthParams {
    pub state: String,
    pub code: String,
    pub scope: String,
    pub authuser: String,
    pub prompt: String,
}

/// The parameters as texts: state, code, scope, authuser, prompt.
pub type OAuthParamsView = (Seq<char>, Seq<char>, Seq<char>, Seq<char>, Seq<char>);

impl View for GoogleOAuthParams {
    type V = OAuthParamsView;

    open spec fn view(&self) -> OAuthParamsView {
        (self.state@, self.code@, self.scope@, self.authuser@, self.prompt@)
    }
}

/// The message for a parameter that the callback lacks.
pub open spec fn missing_param_message(name: Seq<char>) -> Seq<char> {
    "Missing '"@ + name + "' in OAuth params"@
}

/// What reading the five parameters out of a callback's map gives: the
/// first of state, code, scope, authuser and prompt that is missing is
/// reported, else all five values.
pub open spec fn extract_outcome(m: Map<Seq<char>, String>) -> Result<OAuthParamsView, Seq<char>> {
    if !m.contains_key("state"@) {
        Err(missing_param_message("state"@))
    } else if !m.contains_key("code"@) {
        Err(missing_param_message("code"@))
    } else if !m.contains_key("scope"@) {
        Err(missing_param_message("scope"@))
    } else if !m.contains_key("authuser"@) {
        Err(missing_param_message("authuser"@))
    } else if !m.contains_key("prompt"@) {
        Err(missing_param_message("prompt"@))
    } else {
        Ok((m["state"@]@, m["code"@]@, m["scope"@]@, m["authuser"@]@, m["prompt"@]@))
    }
}

fn required_param(params: &StrMap<String>, name: &str) -> (r: Result<String, String>)
    ensures
        match r {
            Ok(v) => params@.contains_key(name@) && v@ == params@[name@]@,
            Err(e) => !params@.contains_key(name@) && e@ == missing_param_message(name@),
        },
{
    match params.get(name) {
        Some(v) => Ok(v.clone()),
        None => {
            let mut e = "Missing '".to_owned();
            e.append(name);
            e.append("' in OAuth params");
            Err(e)
        },
    }
}

/// Reads the state, code, scope, authuser and prompt parameters of a
/// callback; the first one missing makes it fail.
pub fn extract_google_oauth_params(params: &StrMap<String>) -> (r: Result<GoogleOAuthParams, String>)
    ensures
        extract_outcome(params@) == match r {
            Ok(p) => Ok(p@),
            Err(e) => Err(e@),
        },
{
    let state = match required_param(params, "state") {
        Ok(v) => v,
        Err(e) => return Err(e),
    };
    let code = match required_param(params, "code") {
        Ok(v) => v,
        Err(e) => return Err(e),
    };
    let scope = match required_param(params, "scope") {
        Ok(v) => v,
        Err(e) => return Err(e),
    };
    let authuser = match required_param(params, "authuser") {
        Ok(v) => v,
        Err(e) => return Err(e),
    };
    let prompt = match required_param(params, "prompt") {
        Ok(v) => v,
        Err(e) => return Err(e),
    };
    Ok(GoogleOAuthParams { state, code, scope, authuser, prompt })
}

/// Reading the parameters succeeds exactly when all five are present, and
/// then gives their values.
pub proof fn lemma_extract_succeeds_iff_all_present(m: Map<Seq<char>, String>)
    ensures
        extract_outcome(m) is Ok <==> (m.contains_key("state"@) && m.contains_key("code"@)
            && m.contains_key("scope"@) && m.contains_key("authuser"@) && m.contains_key("prompt"@)),
        extract_outcome(m) matches Ok(v) ==> v.1 == m["code"@]@,
{
}

} // verus!
