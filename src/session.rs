use vstd::prelude::*;

verus! {

/// Cookie that carries the anti-replay token, in the form `<token>_<time>`.
pub const TOKEN_COOKIE: &'static str = "_m_h5_tk";

/// Cookie that carries the encrypted anti-replay token.
pub const ENC_TOKEN_COOKIE: &'static str = "_m_h5_tk_enc";

/// The anti-replay token pair issued by the handshake.
#[derive(Debug)]
pub struct DmToken {
    pub enc_token: String,
    pub token_with_time: String,
    pub token: String,
}

/// The part of `s` before its first `_`, or all of `s` when it has none.
pub open spec fn token_part(s: Seq<char>) -> Seq<char> {
    if exists|i: int| 0 <= i < s.len() && s[i] == '_' {
        s.take(first_underscore(s))
    } else {
        s
    }
}

pub open spec fn is_first_underscore(s: Seq<char>, i: int) -> bool {
    &&& 0 <= i < s.len()
    &&& s[i] == '_'
    &&& forall|j: int| 0 <= j < i ==> s[j] != '_'
}

pub open spec fn first_underscore(s: Seq<char>) -> int {
    choose|i: int| is_first_underscore(s, i)
}

/// The value of the last cookie called `name`, if any.
pub open spec fn last_cookie(c: Seq<(String, String)>, name: Seq<char>) -> Option<Seq<char>>
    decreases c.len(),
{
    if c.len() == 0 {
        None
    } else if c.last().0@ == name {
        Some(c.last().1@)
    } else {
        last_cookie(c.drop_last(), name)
    }
}

pub open spec fn or_empty(v: Option<Seq<char>>) -> Seq<char> {
    match v {
        Some(s) => s,
        None => Seq::empty(),
    }
}

/// Splits a timed token at its first `_` and keeps what comes before.
pub fn token_part_of(s: &str) -> (r: String)
    ensures
        r@ == token_part(s@),
{
    let n = s.unicode_len();
    let mut i: usize = 0;
    while i < n
        invariant
            n == s@.len(),
            i <= n,
            forall|j: int| 0 <= j < i ==> s@[j] != '_',
        decreases n - i,
    {
        if s.get_char(i) == '_' {
            proof {
                assert(is_first_underscore(s@, i as int));
                let k = first_underscore(s@);
                assert(is_first_underscore(s@, k));
                assert(k == i as int);
            }
            return String::from_str(s.substring_char(0, i));
        }
        i = i + 1;
    }
    String::from_str(s)
}

impl DmToken {
    pub fn empty() -> (r: DmToken)
        ensures
            r.enc_token@.len() == 0,
            r.token_with_time@.len() == 0,
            r.token@.len() == 0,
    {
        DmToken { enc_token: String::new(), token_with_time: String::new(), token: String::new() }
    }

    /// Reads the token pair from the cookies of the handshake response, as
    /// `(name, value)` pairs in the order received. A later cookie of the same
    /// name replaces an earlier one; a missing cookie leaves its fields empty.
    pub fn from_cookies(cookies: &Vec<(String, String)>) -> (r: DmToken)
        ensures
            r.token_with_time@ == or_empty(last_cookie(cookies@, TOKEN_COOKIE@)),
            r.token@ == token_part(r.token_with_time@),
            r.enc_token@ == or_empty(last_cookie(cookies@, ENC_TOKEN_COOKIE@)),
    {
        let token_name = String::from_str(TOKEN_COOKIE);
        let enc_name = String::from_str(ENC_TOKEN_COOKIE);
        let mut r = DmToken::empty();
        proof {
            assert(token_part(Seq::<char>::empty()) =~= Seq::<char>::empty());
        }
        let mut i: usize = 0;
        while i < cookies.len()
            invariant
                i <= cookies@.len(),
                token_name@ == TOKEN_COOKIE@,
                enc_name@ == ENC_TOKEN_COOKIE@,
                r.token_with_time@ == or_empty(last_cookie(cookies@.take(i as int), TOKEN_COOKIE@)),
                r.token@ == token_part(r.token_with_time@),
                r.enc_token@ == or_empty(last_cookie(cookies@.take(i as int), ENC_TOKEN_COOKIE@)),
            decreases cookies@.len() - i,
        {
            let (name, value) = &cookies[i];
            proof {
                assert(cookies@.take(i as int + 1).drop_last() =~= cookies@.take(i as int));
                assert(cookies@.take(i as int + 1).last() == cookies@[i as int]);
            }
            if *name == token_name {
                r.token_with_time = value.clone();
                r.token = token_part_of(value.as_str());
            }
            if *name == enc_name {
                r.enc_token = value.clone();
            }
            i = i + 1;
        }
        proof {
            assert(cookies@.take(cookies@.len() as int) =~= cookies@);
        }
        r
    }

    /// True when the handshake yielded both cookies.
    pub fn is_complete(&self) -> (r: bool)
        ensures
            r == (self.token_with_time@.len() > 0 && self.enc_token@.len() > 0),
    {
        self.token_with_time.unicode_len() > 0 && self.enc_token.unicode_len() > 0
    }

    /// The cookie header of an authenticated client: the caller's session
    /// cookie followed by the two anti-replay cookies.
    pub fn cookie_header(&self, session_cookie: &str) -> (r: String)
        ensures
            r@ == session_cookie@ + ";"@ + ENC_TOKEN_COOKIE@ + "="@ + self.enc_token@ + ";"@
                + TOKEN_COOKIE@ + "="@ + self.token_with_time@ + ";"@,
    {
        let mut r = String::from_str(session_cookie);
        r.append(";");
        r.append(ENC_TOKEN_COOKIE);
        r.append("=");
        r.append(self.enc_token.as_str());
        r.append(";");
        r.append(TOKEN_COOKIE);
        r.append("=");
        r.append(self.token_with_time.as_str());
        r.append(";");
        r
    }
}

} // verus!
