use vstd::prelude::*;
use vstd::string::*;

verus! {

/// The secure websocket address of a stream: `wss://host:port` followed by
/// the stream's path.
pub open spec fn spec_stream_url(host: Seq<char>, port: Seq<char>, path: Seq<char>) -> Seq<char> {
    "wss://"@ + host + ":"@ + port + path
}

/// Builds the secure websocket address of a stream.
pub fn stream_url(host: &str, port: &str, path: &str) -> (url: String)
    ensures
        url@ == spec_stream_url(host@, port@, path@),
        url@ == "wss://"@ + host@ + ":"@ + port@ + path@,
{
    let mut url = String::from_str("wss://");
    url.append(host);
    url.append(":");
    url.append(port);
    url.append(path);
    url
}

/// The address is the scheme, the host, a colon, the port and the path, each
/// as given: it is seven characters longer than the three parts together,
/// begins with `wss://` and ends with the path.
pub proof fn lemma_stream_url_parts(host: Seq<char>, port: Seq<char>, path: Seq<char>)
    ensures
        spec_stream_url(host, port, path) == "wss://"@ + host + ":"@ + port + path,
        spec_stream_url(host, port, path).len() == 7 + host.len() + port.len() + path.len(),
        spec_stream_url(host, port, path).subrange(0, 6) == seq!['w', 's', 's', ':', '/', '/'],
        spec_stream_url(host, port, path).subrange(6, 6 + host.len() as int) == host,
        spec_stream_url(host, port, path)[6 + host.len() as int] == ':',
        spec_stream_url(host, port, path).subrange(7 + host.len() as int, 7 + host.len() + port.len() as int) == port,
        spec_stream_url(host, port, path).subrange(
            spec_stream_url(host, port, path).len() - path.len() as int,
            spec_stream_url(host, port, path).len() as int,
        ) == path,
{
    reveal_strlit("wss://");
    reveal_strlit(":");
    let u = spec_stream_url(host, port, path);
    assert(u =~= seq!['w', 's', 's', ':', '/', '/'] + host + seq![':'] + port + path);
    assert(u.subrange(0, 6) =~= seq!['w', 's', 's', ':', '/', '/']);
    assert(u.subrange(6, 6 + host.len() as int) =~= host);
    assert(u.subrange(7 + host.len() as int, 7 + host.len() + port.len() as int) =~= port);
    assert(u.subrange(u.len() - path.len() as int, u.len() as int) =~= path);
}

} // verus!
