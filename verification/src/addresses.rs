//! The addresses a node prints and registers: where it listens, the public
//! address of a server, service URLs, and the slug that names a remote
//! service in an import URL.
use vstd::prelude::*;
use crate::text::nat_text;

verus! {

/// The part of `s` after its last `/` (all of `s` when it has none).
pub open spec fn slug(s: Seq<char>) -> Seq<char>
    decreases s.len(),
{
    if s.len() == 0 {
        Seq::empty()
    } else if s.last() == '/' {
        Seq::empty()
    } else {
        slug(s.drop_last()).push(s.last())
    }
}

/// `s` with every occurrence of `pat` replaced by `rep`, scanning from the
/// left and not looking inside a replaced occurrence again.
pub open spec fn replaced(s: Seq<char>, pat: Seq<char>, rep: Seq<char>) -> Seq<char>
    decreases s.len(),
{
    if pat.len() == 0 || s.len() < pat.len() {
        s
    } else if s.take(pat.len() as int) == pat {
        rep + replaced(s.skip(pat.len() as int), pat, rep)
    } else {
        seq![s[0]] + replaced(s.skip(1), pat, rep)
    }
}

/// The address a node listens on: loopback when `local`, every interface
/// otherwise.
pub open spec fn listen_text(local: bool, port: u16) -> Seq<char> {
    "/ip4/"@ + (if local {
        "127.0.0.1"@
    } else {
        "0.0.0.0"@
    }) + "/tcp/"@ + nat_text(port as nat)
}

/// The characters of `s`, one by one.
fn chars_of(s: &str) -> (res: Vec<char>)
    ensures
        res@ == s@,
{
    let n = s.unicode_len();
    let mut res: Vec<char> = Vec::new();
    let mut i: usize = 0;
    while i < n
        invariant
            i <= n,
            n == s@.len(),
            res@ == s@.take(i as int),
        decreases n - i,
    {
        res.push(s.get_char(i));
        i = i + 1;
        assert(res@ =~= s@.take(i as int));
    }
    assert(s@.take(n as int) =~= s@);
    res
}

/// The slug of an import URL: the text after its last `/`.
pub fn import_slug(url: &str) -> (res: String)
    ensures
        res@ == slug(url@),
{
    let n = url.unicode_len();
    let mut j: usize = n;
    while j > 0 && url.get_char(j - 1) != '/'
        invariant
            j <= n,
            n == url@.len(),
            forall|k: int| j <= k < n ==> url@[k] != '/',
        decreases j,
    {
        j = j - 1;
    }
    proof {
        lemma_slug_after_last_slash(url@, j as int);
    }
    String::from_str(url.substring_char(j, n))
}

/// When `j` is just past the last `/` of `s` (or at 0 when there is none),
/// the slug is what follows `j`.
proof fn lemma_slug_after_last_slash(s: Seq<char>, j: int)
    requires
        0 <= j <= s.len(),
        forall|k: int| j <= k < s.len() ==> s[k] != '/',
        j > 0 ==> s[j - 1] == '/',
    ensures
        slug(s) == s.subrange(j, s.len() as int),
    decreases s.len(),
{
    if s.len() == j {
        assert(s.subrange(j, s.len() as int) =~= Seq::<char>::empty());
    } else {
        lemma_slug_after_last_slash(s.drop_last(), j);
        assert(s.subrange(j, s.len() as int) =~= s.drop_last().subrange(j, s.drop_last().len() as int).push(
            s.last(),
        ));
    }
}

/// Whether `p` occurs in `cs` at position `i`.
fn occurs_at(cs: &Vec<char>, i: usize, p: &Vec<char>) -> (res: bool)
    requires
        i <= cs@.len(),
    ensures
        res == (i + p@.len() <= cs@.len() && cs@.subrange(i as int, i + p@.len()) == p@),
{
    if p.len() > cs.len() - i {
        return false;
    }
    let mut k: usize = 0;
    while k < p.len()
        invariant
            k <= p@.len(),
            i + p@.len() <= cs@.len(),
            cs@.len() <= usize::MAX,
            forall|m: int| 0 <= m < k ==> cs@[i + m] == p@[m],
        decreases p@.len() - k,
    {
        if cs[i + k] != p[k] {
            assert(cs@.subrange(i as int, i + p@.len())[k as int] != p@[k as int]);
            return false;
        }
        k = k + 1;
    }
    assert(cs@.subrange(i as int, i + p@.len()) =~= p@);
    true
}

/// `s` with every occurrence of `pat` replaced by `rep` (std's
/// `str::replace` for a non-empty pattern).
fn replace_all(s: &str, pat: &str, rep: &str) -> (res: String)
    requires
        pat@.len() > 0,
    ensures
        res@ == replaced(s@, pat@, rep@),
{
    let cs = chars_of(s);
    let ps = chars_of(pat);
    let mut out = String::new();
    let mut i: usize = 0;
    assert(s@.skip(0) =~= s@);
    assert(out@ + replaced(s@, pat@, rep@) =~= replaced(s@, pat@, rep@));
    while i < cs.len()
        invariant
            i <= cs@.len(),
            cs@ == s@,
            ps@ == pat@,
            ps@.len() > 0,
            replaced(s@, pat@, rep@) == out@ + replaced(s@.skip(i as int), pat@, rep@),
        decreases cs@.len() - i,
    {
        let ghost rest = s@.skip(i as int);
        if occurs_at(&cs, i, &ps) {
            assert(rest.take(pat@.len() as int) =~= cs@.subrange(i as int, i + ps@.len()));
            assert(rest.skip(pat@.len() as int) =~= s@.skip(i + ps@.len()));
            out.append(rep);
            i = i + ps.len();
        } else if cs.len() - i < ps.len() {
            let tail = s.substring_char(i, cs.len());
            out.append(tail);
            assert(rest =~= tail@);
            assert(s@.skip(cs@.len() as int) =~= Seq::<char>::empty());
            i = cs.len();
        } else {
            assert(rest.take(pat@.len() as int) != pat@) by {
                assert(rest.take(pat@.len() as int) =~= cs@.subrange(i as int, i + ps@.len()));
            }
            assert(rest.skip(1) =~= s@.skip(i + 1));
            crate::text::push_char(&mut out, cs[i]);
            i = i + 1;
        }
    }
    assert(s@.skip(cs@.len() as int) =~= Seq::<char>::empty());
    out
}

/// The address a node listens on (`listen_text`).
pub fn listen_address(local: bool, port: u16) -> (res: String)
    ensures
        res@ == listen_text(local, port),
{
    let mut res = String::new();
    res.append("/ip4/");
    if local {
        res.append("127.0.0.1");
    } else {
        res.append("0.0.0.0");
    }
    res.append("/tcp/");
    crate::text::push_u64(&mut res, port as u64);
    assert(res@ =~= listen_text(local, port));
    res
}

/// The address a server announces: the address it listens on with the
/// unspecified and loopback addresses replaced by the node's own address,
/// followed by `/p2p/` and its peer id.
pub fn public_address(listening: &str, node_ip: &str, peer_id: &str) -> (res: String)
    ensures
        res@ == replaced(replaced(listening@, "0.0.0.0"@, node_ip@), "127.0.0.1"@, node_ip@) + "/p2p/"@
            + peer_id@,
{
    proof {
        reveal_strlit("0.0.0.0");
        reveal_strlit("127.0.0.1");
    }
    let first = replace_all(listening, "0.0.0.0", node_ip);
    let mut res = replace_all(first.as_str(), "127.0.0.1", node_ip);
    res.append("/p2p/");
    res.append(peer_id);
    res
}

/// The URL of a service hosted at `address`: `address/name`.
pub fn service_url(address: &str, name: &str) -> (res: String)
    ensures
        res@ == address@ + "/"@ + name@,
{
    let mut res = String::from_str(address);
    res.append("/");
    res.append(name);
    res
}

/// The slug of a URL is the end of the URL and holds no `/`; when it is
/// not the whole URL, a `/` stands just before it.
pub proof fn lemma_slug_is_slashless_suffix(s: Seq<char>)
    ensures
        slug(s).len() <= s.len(),
        slug(s) == s.skip(s.len() - slug(s).len()),
        forall|k: int| 0 <= k < slug(s).len() ==> slug(s)[k] != '/',
        slug(s).len() < s.len() ==> s[s.len() - slug(s).len() - 1] == '/',
    decreases s.len(),
{
    if s.len() > 0 && s.last() != '/' {
        lemma_slug_is_slashless_suffix(s.drop_last());
        let t = slug(s.drop_last());
        assert(s.skip(s.len() - slug(s).len()) =~= s.drop_last().skip(s.drop_last().len() - t.len()).push(s.last()));
        if slug(s).len() < s.len() {
            assert(s[s.len() - slug(s).len() - 1] == s.drop_last()[s.drop_last().len() - t.len() - 1]);
        }
    } else {
        assert(s.skip(s.len() as int) =~= Seq::<char>::empty());
    }
}

/// The address a node listens on is `/ip4/`, the loopback address when
/// `local` and every interface otherwise, then `/tcp/` and the port in
/// decimal. The port part is the same whatever `local` is, and different
/// ports give different addresses.
pub proof fn lemma_listen_text(local: bool, port: u16, other: u16)
    ensures
        listen_text(local, port) == seq!['/', 'i', 'p', '4', '/'] + (if local {
            seq!['1', '2', '7', '.', '0', '.', '0', '.', '1']
        } else {
            seq!['0', '.', '0', '.', '0', '.', '0']
        }) + seq!['/', 't', 'c', 'p', '/'] + nat_text(port as nat),
        listen_text(true, port).skip(14) == listen_text(false, port).skip(12),
        listen_text(local, port).skip(if local { 14int } else { 12int }) == seq!['/', 't', 'c', 'p', '/'] + nat_text(
            port as nat,
        ),
        listen_text(local, port) == listen_text(local, other) ==> port == other,
{
    reveal_strlit("/ip4/");
    reveal_strlit("127.0.0.1");
    reveal_strlit("0.0.0.0");
    reveal_strlit("/tcp/");
    let tcp = seq!['/', 't', 'c', 'p', '/'];
    assert("/tcp/"@ =~= tcp);
    let ip = if local {
        seq!['1', '2', '7', '.', '0', '.', '0', '.', '1']
    } else {
        seq!['0', '.', '0', '.', '0', '.', '0']
    };
    let pre = seq!['/', 'i', 'p', '4', '/'] + ip + tcp;
    assert(listen_text(local, port) =~= pre + nat_text(port as nat));
    assert(listen_text(local, other) =~= pre + nat_text(other as nat));
    assert(listen_text(true, port).skip(14) =~= tcp + nat_text(port as nat));
    assert(listen_text(false, port).skip(12) =~= tcp + nat_text(port as nat));
    crate::text::lemma_frame_injective(pre, nat_text(port as nat), nat_text(other as nat), Seq::empty());
    assert(pre + nat_text(port as nat) + Seq::<char>::empty() =~= pre + nat_text(port as nat));
    assert(pre + nat_text(other as nat) + Seq::<char>::empty() =~= pre + nat_text(other as nat));
    crate::text::lemma_nat_text_injective(port as nat, other as nat);
}

/// Replacing in a string where the pattern never occurs changes nothing;
/// a string that starts with the pattern gets the replacement first and the
/// rest replaced in turn.
pub proof fn lemma_replaced(s: Seq<char>, pat: Seq<char>, rep: Seq<char>)
    ensures
        pat.len() > 0 ==> replaced(pat + s, pat, rep) == rep + replaced(s, pat, rep),
        (forall|i: int| 0 <= i <= s.len() - pat.len() ==> #[trigger] s.subrange(i, i + pat.len()) != pat)
            ==> replaced(s, pat, rep) == s,
    decreases s.len(),
{
    if pat.len() > 0 {
        assert((pat + s).take(pat.len() as int) =~= pat);
        assert((pat + s).skip(pat.len() as int) =~= s);
    }
    if s.len() >= pat.len() && pat.len() > 0 && (forall|i: int|
        0 <= i <= s.len() - pat.len() ==> #[trigger] s.subrange(i, i + pat.len()) != pat) {
        assert(s.take(pat.len() as int) =~= s.subrange(0, pat.len() as int));
        assert forall|i: int| 0 <= i <= s.skip(1).len() - pat.len() implies #[trigger] s.skip(1).subrange(
            i,
            i + pat.len(),
        ) != pat by {
            assert(s.skip(1).subrange(i, i + pat.len()) =~= s.subrange(i + 1, i + 1 + pat.len()));
        }
        lemma_replaced(s.skip(1), pat, rep);
        assert(seq![s[0]] + s.skip(1) =~= s);
    }
}

} // verus!
