use vstd::prelude::*;

use crate::params::{ParamModel, ParamValue, Params};

verus! {

/// The fixed parameters of a QR-code generate request.
pub struct QrcodeGenerateParams {}

pub open spec fn generate_query() -> Map<Seq<char>, ParamModel> {
    Map::<Seq<char>, ParamModel>::empty().insert("appName"@, ParamModel::Text("damai"@)).insert(
        "fromSite"@,
        ParamModel::Text("18"@),
    ).insert("appEntrance"@, ParamModel::Text("damai"@)).insert(
        "_csrf_token"@,
        ParamModel::Text("H1jBVpSogSJEo3r99YTMC3"@),
    ).insert("umidToken"@, ParamModel::Text("dfcbaaafeb9cc67321b83fa8c822bdff7fb63f74"@)).insert(
        "isMobile"@,
        ParamModel::Text("false"@),
    ).insert("lang"@, ParamModel::Text("zh_CN"@)).insert(
        "returnUrl"@,
        ParamModel::Text(
            "https://passport.damai.cn/dologin.htm?redirectUrl=https%253A%252F%252Fwww.damai.cn%252F&platform=106002"@,
        ),
    ).insert("hsiz"@, ParamModel::Text("13d2466b0da2c009670131a60e852012"@)).insert(
        "bizParams"@,
        ParamModel::Text(""@),
    ).insert("umidTag"@, ParamModel::Text("SERVER"@)).insert(
        "_bx-v"@,
        ParamModel::Text("2.2.3"@),
    )
}

impl QrcodeGenerateParams {
    pub fn build() -> (r: Params)
        ensures
            r.wf(),
            r@ == generate_query(),
    {
        let mut r = Params::new();
        r.set("appName", ParamValue::text("damai"));
        r.set("fromSite", ParamValue::text("18"));
        r.set("appEntrance", ParamValue::text("damai"));
        r.set("_csrf_token", ParamValue::text("H1jBVpSogSJEo3r99YTMC3"));
        r.set("umidToken", ParamValue::text("dfcbaaafeb9cc67321b83fa8c822bdff7fb63f74"));
        r.set("isMobile", ParamValue::text("false"));
        r.set("lang", ParamValue::text("zh_CN"));
        r.set(
            "returnUrl",
            ParamValue::text(
                "https://passport.damai.cn/dologin.htm?redirectUrl=https%253A%252F%252Fwww.damai.cn%252F&platform=106002",
            ),
        );
        r.set("hsiz", ParamValue::text("13d2466b0da2c009670131a60e852012"));
        r.set("bizParams", ParamValue::text(""));
        r.set("umidTag", ParamValue::text("SERVER"));
        r.set("_bx-v", ParamValue::text("2.2.3"));
        r
    }
}

/// Key of the correlation time of a ticket in a status query.
pub const TICKET_T_KEY: &'static str = "t";

/// Key of the correlation code of a ticket in a status query.
pub const TICKET_CK_KEY: &'static str = "ck";

/// A generated login QR code: the payload to render and the identifiers
/// that every status query must carry.
#[derive(Debug)]
pub struct QrcodeData {
    pub t: u64,
    pub code_content: String,
    pub ck: String,
    pub result_code: u32,
}

/// The query of a status poll for a ticket.
pub open spec fn poll_query(t: u64, ck: Seq<char>) -> Map<Seq<char>, ParamModel> {
    Map::<Seq<char>, ParamModel>::empty().insert(TICKET_T_KEY@, ParamModel::Number(t)).insert(
        TICKET_CK_KEY@,
        ParamModel::Text(ck),
    )
}

impl QrcodeData {
    /// The parameters of a status poll: `t` and `ck` as generated.
    pub fn poll_params(&self) -> (r: Params)
        ensures
            r.wf(),
            r@ == poll_query(self.t, self.ck@),
    {
        let mut r = Params::new();
        r.set(TICKET_T_KEY, ParamValue::Number(self.t));
        r.set(TICKET_CK_KEY, ParamValue::Text(self.ck.clone()));
        r
    }

    /// The payload to render as a QR code, as generated.
    pub fn payload(&self) -> (r: &str)
        ensures
            r@ == self.code_content@,
    {
        self.code_content.as_str()
    }
}

/// A ticket's identifiers reach the status query unchanged, and its
/// payload reaches the renderer unchanged.
pub proof fn lemma_ticket_round_trip(ticket: QrcodeData)
    ensures
        poll_query(ticket.t, ticket.ck@)[TICKET_T_KEY@] == ParamModel::Number(ticket.t),
        poll_query(ticket.t, ticket.ck@)[TICKET_CK_KEY@] == ParamModel::Text(ticket.ck@),
        poll_query(ticket.t, ticket.ck@).dom().len() == 2,
{
    reveal_strlit("t");
    reveal_strlit("ck");
    assert(TICKET_T_KEY@.len() != TICKET_CK_KEY@.len());
    assert(poll_query(ticket.t, ticket.ck@).dom() =~= set![TICKET_T_KEY@, TICKET_CK_KEY@]);
}

} // verus!
