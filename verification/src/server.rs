//! The MCP server's decisions: access header, host allowlist, settings lists, transport and
//! the command line.
use vstd::prelude::*;
use crate::client::opt_text;
use crate::text::{chars_equal, chars_of, lower, lowercase, push_range, push_str, str_equal, trim, trim_bounds};

verus! {

/// Whether the `we-user` header has exactly the expected value.
pub fn we_user_matches(value: Option<&str>) -> (b: bool)
    ensures
        b == (value is Some && value->0@ == "tobeurself"@),
{
    match value {
        Some(v) => str_equal(v, "tobeurself"),
        None => false,
    }
}

fn owned(text: &str) -> (s: String)
    ensures
        s@ == text@,
{
    let mut s = String::new();
    push_str(&mut s, text);
    proof {
        assert(Seq::<char>::empty() + text@ =~= text@);
    }
    s
}

/// The refusal of a non-loopback listener without an explicit host allowlist.
pub open spec fn hosts_required_message() -> Seq<char> {
    "WECHAT_HTTP_ALLOWED_HOSTS is required when WECHAT_HTTP_BIND is not loopback; set it to the public IP/domain optionally followed by :port"@
}

/// The hosts the HTTP server accepts: the configured ones; else, for a loopback listener,
/// `localhost`, `127.0.0.1` and `::1`; a listener on another address needs a configured list.
pub fn allowed_hosts_with_config(is_loopback: bool, configured: Vec<String>) -> (r: Result<Vec<String>, String>)
    ensures
        configured@.len() > 0 ==> r == Ok::<Vec<String>, String>(configured),
        configured@.len() == 0 && !is_loopback ==> (r matches Err(e) && e@ == hosts_required_message()),
        configured@.len() == 0 && is_loopback ==> (r matches Ok(h) && h@.len() == 3 && h@[0]@
            == "localhost"@ && h@[1]@ == "127.0.0.1"@ && h@[2]@ == "::1"@),
{
    if configured.len() > 0 {
        return Ok(configured);
    }
    if !is_loopback {
        return Err(
            owned(
                "WECHAT_HTTP_ALLOWED_HOSTS is required when WECHAT_HTTP_BIND is not loopback; set it to the public IP/domain optionally followed by :port",
            ),
        );
    }
    let mut hosts: Vec<String> = Vec::new();
    hosts.push(owned("localhost"));
    hosts.push(owned("127.0.0.1"));
    hosts.push(owned("::1"));
    Ok(hosts)
}

/// Adds a comma-separated item, trimmed, unless nothing is left of it.
pub open spec fn keep_item(done: Seq<Seq<char>>, cur: Seq<char>) -> Seq<Seq<char>> {
    if trim(cur).len() > 0 {
        done.push(trim(cur))
    } else {
        done
    }
}

/// Reading a comma-separated list left to right: the items so far and the one being read.
pub open spec fn comma_scan(s: Seq<char>) -> (Seq<Seq<char>>, Seq<char>)
    decreases s.len(),
{
    if s.len() == 0 {
        (seq![], seq![])
    } else {
        let prev = comma_scan(s.drop_last());
        if s.last() == ',' {
            (keep_item(prev.0, prev.1), seq![])
        } else {
            (prev.0, prev.1.push(s.last()))
        }
    }
}

/// The items of a comma-separated setting, trimmed, without empty ones.
pub open spec fn comma_items(s: Seq<char>) -> Seq<Seq<char>> {
    keep_item(comma_scan(s).0, comma_scan(s).1)
}

fn push_item(items: &mut Vec<String>, cur: &Vec<char>, Ghost(g): Ghost<Seq<Seq<char>>>) -> (out: Ghost<Seq<Seq<char>>>)
    requires
        old(items)@.len() == g.len(),
        forall|k: int| 0 <= k < g.len() ==> #[trigger] old(items)@[k]@ == g[k],
    ensures
        out@ == keep_item(g, cur@),
        final(items)@.len() == out@.len(),
        forall|k: int| 0 <= k < out@.len() ==> #[trigger] final(items)@[k]@ == out@[k],
{
    let (a, b) = trim_bounds(cur);
    if a < b {
        let mut s = String::new();
        push_range(&mut s, cur, a, b);
        assert(s@ =~= trim(cur@));
        items.push(s);
        Ghost(g.push(trim(cur@)))
    } else {
        Ghost(g)
    }
}

/// The items of a comma-separated setting such as `WECHAT_HTTP_ALLOWED_HOSTS`: split at
/// commas, trimmed, empty ones left out.
pub fn split_comma_list(value: &str) -> (r: Vec<String>)
    ensures
        r@.len() == comma_items(value@).len(),
        forall|k: int| 0 <= k < r@.len() ==> #[trigger] r@[k]@ == comma_items(value@)[k],
{
    let v = chars_of(value);
    let mut items: Vec<String> = Vec::new();
    let ghost mut g: Seq<Seq<char>> = seq![];
    let mut cur: Vec<char> = Vec::new();
    let mut i: usize = 0;
    while i < v.len()
        invariant
            i <= v@.len(),
            v@ == value@,
            (g, cur@) == comma_scan(v@.take(i as int)),
            items@.len() == g.len(),
            forall|k: int| 0 <= k < items@.len() ==> #[trigger] items@[k]@ == g[k],
        decreases v.len() - i,
    {
        let c = v[i];
        assert(v@.take(i + 1).drop_last() == v@.take(i as int));
        assert(v@.take(i + 1).last() == c);
        if c == ',' {
            let Ghost(next) = push_item(&mut items, &cur, Ghost(g));
            proof {
                g = next;
            }
            cur = Vec::new();
        } else {
            cur.push(c);
        }
        i = i + 1;
    }
    assert(v@.take(v@.len() as int) == v@);
    let Ghost(last) = push_item(&mut items, &cur, Ghost(g));
    items
}

/// How the MCP server talks to its client.
#[derive(Debug, Clone, Copy, PartialEq, Eq)]
pub enum Transport {
    Http,
    Stdio,
}

/// The transport a `WECHAT_TRANSPORT` setting selects: HTTP unless set, `http` or
/// `streamable_http` for HTTP and `stdio` for standard input and output, in any ASCII case.
pub open spec fn transport_outcome(value: Option<Seq<char>>) -> Result<Transport, Seq<char>> {
    let v = match value {
        Some(v) => lower(v),
        None => "http"@,
    };
    if v == "http"@ || v == "streamable_http"@ {
        Ok(Transport::Http)
    } else if v == "stdio"@ {
        Ok(Transport::Stdio)
    } else {
        Err("unsupported WECHAT_TRANSPORT="@ + v + "; use http or stdio"@)
    }
}

/// The transport setting is read in any ASCII case; unset it selects HTTP, just as `http`
/// does; a value selects HTTP exactly when it is `http` or `streamable_http`, standard input
/// and output exactly when it is `stdio`, and every other value is refused, so both values
/// that the refusal advises are accepted.
pub proof fn lemma_transport_choice(v: Seq<char>)
    ensures
        transport_outcome(None) == Ok::<Transport, Seq<char>>(Transport::Http),
        transport_outcome(None) == transport_outcome(Some("http"@)),
        transport_outcome(Some("stdio"@)) == Ok::<Transport, Seq<char>>(Transport::Stdio),
        transport_outcome(Some(v)) == transport_outcome(Some(lower(v))),
        (transport_outcome(Some(v)) == Ok::<Transport, Seq<char>>(Transport::Http)) <==> (lower(v)
            == "http"@ || lower(v) == "streamable_http"@),
        (transport_outcome(Some(v)) == Ok::<Transport, Seq<char>>(Transport::Stdio)) <==> lower(v)
            == "stdio"@,
        transport_outcome(Some(v)) is Err <==> !(lower(v) == "http"@ || lower(v)
            == "streamable_http"@ || lower(v) == "stdio"@),
{
    reveal_strlit("http");
    reveal_strlit("stdio");
    reveal_strlit("streamable_http");
    assert(lower("http"@) =~= "http"@);
    assert(lower("stdio"@) =~= "stdio"@);
    assert(lower(lower(v)) =~= lower(v));
}

/// Selects the transport from the `WECHAT_TRANSPORT` setting.
pub fn transport_from_setting(value: Option<&str>) -> (r: Result<Transport, String>)
    ensures
        match transport_outcome(opt_text(value)) {
            Ok(t) => r == Ok::<Transport, String>(t),
            Err(e) => r matches Err(m) && m@ == e,
        },
{
    let v = match value {
        Some(v) => lowercase(v),
        None => chars_of("http"),
    };
    if chars_equal(&v, &chars_of("http")) || chars_equal(&v, &chars_of("streamable_http")) {
        Ok(Transport::Http)
    } else if chars_equal(&v, &chars_of("stdio")) {
        Ok(Transport::Stdio)
    } else {
        let mut m = owned("unsupported WECHAT_TRANSPORT=");
        push_range(&mut m, &v, 0, v.len());
        push_str(&mut m, "; use http or stdio");
        assert(v@.subrange(0, v@.len() as int) == v@);
        Err(m)
    }
}

/// The usage line of the render command.
pub open spec fn usage_message() -> Seq<char> {
    "usage: wechat-mp-mcp render <note.json>"@
}

/// What the command-line arguments (after the program name) ask for: nothing, which starts
/// the server, or `render <note.json>`, which renders one note file.
pub open spec fn command_outcome(args: Seq<Seq<char>>) -> Result<Option<Seq<char>>, Seq<char>> {
    if args.len() == 0 {
        Ok(None)
    } else if args[0] != "render"@ {
        Err("unknown command "@ + args[0] + "; use `render <note.json>` or start without arguments"@)
    } else if args.len() == 1 || args.len() > 2 {
        Err(usage_message())
    } else {
        Ok(Some(args[1]))
    }
}

/// Reads the command-line arguments that follow the program name.
pub fn render_command_path(args: &Vec<String>) -> (r: Result<Option<String>, String>)
    ensures
        match command_outcome(args@.map_values(|a: String| a@)) {
            Ok(None) => r matches Ok(None),
            Ok(Some(p)) => r matches Ok(Some(s)) && s@ == p,
            Err(e) => r matches Err(m) && m@ == e,
        },
{
    let ghost views = args@.map_values(|a: String| a@);
    if args.len() == 0 {
        return Ok(None);
    }
    assert(views[0] == args@[0]@);
    if !str_equal(args[0].as_str(), "render") {
        let mut m = owned("unknown command ");
        push_str(&mut m, args[0].as_str());
        push_str(&mut m, "; use `render <note.json>` or start without arguments");
        return Err(m);
    }
    if args.len() != 2 {
        return Err(owned("usage: wechat-mp-mcp render <note.json>"));
    }
    assert(views[1] == args@[1]@);
    Ok(Some(args[1].clone()))
}

} // verus!
