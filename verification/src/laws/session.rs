//! How a session reaches Jira: who signs in, what answers, and for how long.

use crate::api::client::connection;
use crate::api::client::connection::JiraClient;
use crate::api::AuthType;
use crate::config::dates;
use crate::config::detect;
use crate::config::detect::{ProbeReply, RequestFailure};
use crate::config::site::Deployment;
use crate::text;
use vstd::prelude::*;
use vstd::utf8::*;

verus! {

broadcast use vstd::string::group_string_axioms;

/// The six bits that a character of base64 stands for.
pub open spec fn sextet(c: char) -> int {
    if 'A' <= c <= 'Z' {
        c as int - 'A' as int
    } else if 'a' <= c <= 'z' {
        c as int - 'a' as int + 26
    } else if '0' <= c <= '9' {
        c as int - '0' as int + 52
    } else if c == '+' {
        62
    } else {
        63
    }
}

/// The bytes that a text in base64 stands for.
pub open spec fn base64_bytes(s: Seq<char>) -> Seq<u8>
    decreases s.len(),
{
    if s.len() < 4 {
        Seq::empty()
    } else {
        let first = (sextet(s[0]) * 4 + sextet(s[1]) / 16) as u8;
        let second = (sextet(s[1]) % 16 * 16 + sextet(s[2]) / 4) as u8;
        let third = (sextet(s[2]) % 4 * 64 + sextet(s[3])) as u8;
        if s[2] == '=' {
            seq![first]
        } else if s[3] == '=' {
            seq![first, second]
        } else {
            seq![first, second, third] + base64_bytes(s.skip(4))
        }
    }
}

proof fn lemma_char(bits: int)
    requires
        0 <= bits < 64,
    ensures
        sextet(connection::base64_char(bits)) == bits,
        connection::base64_char(bits) != '=',
{
    reveal_strlit("ABCDEFGHIJKLMNOPQRSTUVWXYZabcdefghijklmnopqrstuvwxyz0123456789+/");
    let alphabet = "ABCDEFGHIJKLMNOPQRSTUVWXYZabcdefghijklmnopqrstuvwxyz0123456789+/"@;
    assert(alphabet[0] == 'A');
    assert(alphabet[1] == 'B');
    assert(alphabet[2] == 'C');
    assert(alphabet[3] == 'D');
    assert(alphabet[4] == 'E');
    assert(alphabet[5] == 'F');
    assert(alphabet[6] == 'G');
    assert(alphabet[7] == 'H');
    assert(alphabet[8] == 'I');
    assert(alphabet[9] == 'J');
    assert(alphabet[10] == 'K');
    assert(alphabet[11] == 'L');
    assert(alphabet[12] == 'M');
    assert(alphabet[13] == 'N');
    assert(alphabet[14] == 'O');
    assert(alphabet[15] == 'P');
    assert(alphabet[16] == 'Q');
    assert(alphabet[17] == 'R');
    assert(alphabet[18] == 'S');
    assert(alphabet[19] == 'T');
    assert(alphabet[20] == 'U');
    assert(alphabet[21] == 'V');
    assert(alphabet[22] == 'W');
    assert(alphabet[23] == 'X');
    assert(alphabet[24] == 'Y');
    assert(alphabet[25] == 'Z');
    assert(alphabet[26] == 'a');
    assert(alphabet[27] == 'b');
    assert(alphabet[28] == 'c');
    assert(alphabet[29] == 'd');
    assert(alphabet[30] == 'e');
    assert(alphabet[31] == 'f');
    assert(alphabet[32] == 'g');
    assert(alphabet[33] == 'h');
    assert(alphabet[34] == 'i');
    assert(alphabet[35] == 'j');
    assert(alphabet[36] == 'k');
    assert(alphabet[37] == 'l');
    assert(alphabet[38] == 'm');
    assert(alphabet[39] == 'n');
    assert(alphabet[40] == 'o');
    assert(alphabet[41] == 'p');
    assert(alphabet[42] == 'q');
    assert(alphabet[43] == 'r');
    assert(alphabet[44] == 's');
    assert(alphabet[45] == 't');
    assert(alphabet[46] == 'u');
    assert(alphabet[47] == 'v');
    assert(alphabet[48] == 'w');
    assert(alphabet[49] == 'x');
    assert(alphabet[50] == 'y');
    assert(alphabet[51] == 'z');
    assert(alphabet[52] == '0');
    assert(alphabet[53] == '1');
    assert(alphabet[54] == '2');
    assert(alphabet[55] == '3');
    assert(alphabet[56] == '4');
    assert(alphabet[57] == '5');
    assert(alphabet[58] == '6');
    assert(alphabet[59] == '7');
    assert(alphabet[60] == '8');
    assert(alphabet[61] == '9');
    assert(alphabet[62] == '+');
    assert(alphabet[63] == '/');
    if bits < 26 {
        assert(alphabet[bits] as int == 'A' as int + bits);
    } else if bits < 52 {
        assert(alphabet[bits] as int == 'a' as int + bits - 26);
    } else if bits < 62 {
        assert(alphabet[bits] as int == '0' as int + bits - 52);
    }
}

/// What is encoded in base64 reads back.
pub proof fn base64_reads_back(bytes: Seq<u8>)
    ensures
        base64_bytes(connection::base64_text(bytes)) == bytes,
    decreases bytes.len(),
{
    let shown = connection::base64_text(bytes);
    if bytes.len() > 0 {
        let a = bytes[0] as int;
        lemma_char(a / 4);
        if bytes.len() == 1 {
            lemma_char(a % 4 * 16);
            assert(base64_bytes(shown) =~= bytes);
        } else {
            let b = bytes[1] as int;
            lemma_char(a % 4 * 16 + b / 16);
            if bytes.len() == 2 {
                lemma_char(b % 16 * 4);
                assert(base64_bytes(shown) =~= bytes);
            } else {
                let c = bytes[2] as int;
                lemma_char(b % 16 * 4 + c / 64);
                lemma_char(c % 64);
                base64_reads_back(bytes.skip(3));
                assert(shown.skip(4) =~= connection::base64_text(bytes.skip(3)));
                assert(base64_bytes(shown) =~= seq![bytes[0], bytes[1], bytes[2]] + bytes.skip(3));
                assert(bytes =~= seq![bytes[0], bytes[1], bytes[2]] + bytes.skip(3));
            }
        }
    }
}

/// A user signs in with their address and their token, which the header carries in base64; a
/// personal access token stands in it by itself.
pub proof fn the_header_carries_the_credentials(email: Seq<char>, token: Seq<char>)
    ensures
        ({
            let basic = connection::authorization_of(AuthType::Basic, email, token);
            &&& basic.len() >= 6
            &&& basic.take(6) == "Basic "@
            &&& base64_bytes(basic.skip(6)) == encode_utf8(email + ":"@ + token)
        }),
        connection::authorization_of(AuthType::Pat, email, token) == "Bearer "@ + token,
{
    let basic = connection::authorization_of(AuthType::Basic, email, token);
    let coded = connection::base64_text(encode_utf8(email + ":"@ + token));
    reveal_strlit("Basic ");
    assert(basic.take(6) =~= "Basic "@);
    assert(basic.skip(6) =~= coded);
    base64_reads_back(encode_utf8(email + ":"@ + token));
}

/// A scoped token is used through the gateway, with the Cloud ID of the site; any other is used
/// at the site itself.
pub proof fn scoped_tokens_go_through_the_gateway(
    client: JiraClient,
    host: Seq<char>,
    cloud_id: &str,
    token_kind: Seq<char>,
    api_version: u8,
)
    requires
        client.reaches(host, Some(cloud_id), token_kind, api_version),
        text::trimmed(cloud_id@).len() > 0,
    ensures
        token_kind == "scoped"@ ==> client.base_url@ == "https://api.atlassian.com/ex/jira/"@
            + cloud_id@ + "/rest/api/"@ + text::decimal(api_version as nat)
            && client.agile_base_url@ == "https://api.atlassian.com/ex/jira/"@ + cloud_id@
            + "/rest/agile/1.0"@,
        token_kind != "scoped"@ ==> client.base_url@ == client.site_url@ + "/rest/api/"@
            + text::decimal(api_version as nat) && client.agile_base_url@ == client.site_url@
            + "/rest/agile/1.0"@,
{
}

/// The page of an issue is on the site, under the issue's key.
pub proof fn an_issue_has_its_page_on_the_site(client: JiraClient, key: Seq<char>)
    ensures
        client.issue_page(key) == client.site_url@ + "/browse/"@ + key,
{
}

/// A site that calls itself Cloud, in any case, is on Cloud; one that names anything else, or only
/// a version, is Data Center; one that names neither cannot be told.
pub proof fn a_site_says_which_jira_it_runs(kind: Seq<char>, version: Option<Seq<char>>)
    ensures
        text::ascii_lower(kind) == "cloud"@ ==> detect::deployment_of(Some(kind), version) == Some(
            Deployment::Cloud,
        ),
        text::ascii_lower(kind) != "cloud"@ ==> detect::deployment_of(Some(kind), version) == Some(
            Deployment::DataCenter,
        ),
        version is Some ==> detect::deployment_of(None, version) == Some(Deployment::DataCenter),
        version is None ==> detect::deployment_of(None, version) is None,
{
    reveal_strlit("cloud");
    assert(text::ascii_lower("cloud"@) =~= "cloud"@);
}

/// A site that does not answer is not taken for one that is not Jira.
pub proof fn silence_is_no_answer(site: Seq<char>, failure: RequestFailure, status: String)
    ensures
        detect::reply_meaning(site, ProbeReply::Failed(failure)) is Unreachable,
        detect::reply_meaning(site, ProbeReply::Refused(status)) is NotJira,
        detect::reply_meaning(site, ProbeReply::NotJson) is NotJira,
{
}

/// A token has expired from the day behind its last day on, is about to in the thirty days up to
/// it, and is valid before.
pub proof fn a_token_stands_by_its_last_day(source: Seq<char>, last: i32, today: i32)
    requires
        dates::day_of(source) == Some(last),
    ensures
        ({
            let status = dates::status_spec(Some(source), today);
            &&& today > last ==> status == "expired"@
            &&& today <= last <= today + 30 ==> status == "expiring-soon"@
            &&& last > today + 30 ==> status == "valid"@
        }),
{
}

/// Without a date nothing is known of a token, and a text that is no date is invalid.
pub proof fn a_token_without_a_date_is_not_judged(source: Seq<char>, today: i32)
    ensures
        dates::status_spec(None, today) == "unknown"@,
        dates::day_of(source) is None ==> dates::status_spec(Some(source), today) == "invalid"@,
{
}

/// A client needs a host and, for a scoped token, a Cloud ID.
pub proof fn a_client_needs_a_site(
    host: Seq<char>,
    authorization: Seq<char>,
    cloud_id: &str,
    token_kind: Seq<char>,
)
    ensures
        host.len() == 0 ==> connection::client_problem(
            host,
            authorization,
            Some(cloud_id),
            token_kind,
        ) is Some,
        connection::client_problem(host, authorization, None, "scoped"@) is Some,
        text::trimmed(cloud_id@).len() == 0 ==> connection::client_problem(
            host,
            authorization,
            Some(cloud_id),
            "scoped"@,
        ) is Some,
        connection::origin_of(host).1.len() > 0 && (forall|i: int|
            0 <= i < encode_utf8(authorization).len() ==> 32 <= #[trigger] encode_utf8(
                authorization,
            )[i] && encode_utf8(authorization)[i] != 127) && text::trimmed(cloud_id@).len() > 0
            ==> connection::client_problem(host, authorization, Some(cloud_id), token_kind)
            is None,
{
    reveal_strlit("http://");
    if host.len() == 0 {
        assert(!text::has_prefix(host, "http://"@));
        assert(connection::origin_of(host).1.len() == 0);
    }
}

} // verus!
