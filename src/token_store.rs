use vstd::prelude::*;

use crate::params::{ParamModel, ParamValue, Params};

verus! {

/// Key of the user-agent fingerprint, fetched afresh for every request.
pub const BX_UA_KEY: &'static str = "bx_ua";

/// Key of the umid token, fetched once per client.
pub const BX_TOKEN_KEY: &'static str = "bx_token";

/// Query parameter that names the wanted key.
pub const KEY_PARAM: &'static str = "key";

/// The envelope code of a successful lookup.
pub const SUCCESS_CODE: u64 = 200;

/// What the token store answered: its `code`, and its `data.value` when
/// that is a string. Either is `None` where the envelope lacks it.
pub struct TokenEnvelope {
    pub code: Option<u64>,
    pub value: Option<String>,
}

pub open spec fn opt_view(o: Option<String>) -> Option<Seq<char>> {
    match o {
        Some(s) => Some(s@),
        None => None,
    }
}

/// The value a lookup yields: `data.value` under a success code, else empty.
pub open spec fn envelope_value(code: Option<u64>, value: Option<Seq<char>>) -> Seq<char> {
    if code == Some(SUCCESS_CODE) && value is Some {
        value->0
    } else {
        Seq::empty()
    }
}

impl TokenEnvelope {
    /// The looked-up value; a failed or malformed answer degrades to "".
    pub fn into_value(self) -> (r: String)
        ensures
            r@ == envelope_value(self.code, opt_view(self.value)),
    {
        match (self.code, self.value) {
            (Some(code), Some(v)) => {
                if code == SUCCESS_CODE {
                    v
                } else {
                    String::new()
                }
            },
            _ => String::new(),
        }
    }
}

/// The query of a lookup of `key`.
pub fn token_query(key: &str) -> (r: Params)
    ensures
        r.wf(),
        r@ == Map::<Seq<char>, ParamModel>::empty().insert(KEY_PARAM@, ParamModel::Text(key@)),
{
    let mut r = Params::new();
    r.set(KEY_PARAM, ParamValue::text(key));
    r
}

} // verus!
