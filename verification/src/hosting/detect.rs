//! Which hosting platform a repository uses: Azure DevOps when its `origin`
//! is on `dev.azure.com` or `*.visualstudio.com`, GitHub otherwise, unless
//! `git config bflow.hosting.provider` says which.
use vstd::prelude::*;

use crate::flows::string_eq;
use crate::git::{call_at, Git, GitAnswer, GitEvent, GitOp};
use crate::hosting::devops::encode_spaces;
use crate::text::{
    chars_of, contains_seq, contains_str, has_prefix, is_ws, lemma_split_on_sep, lemma_split_on_whole, lemma_trim_fixed, no_char,
    split_on, split_ranges, starts_with_at, substring, trim, trim_bounds,
};

verus! {

/// A hosting platform, with what it needs to address the repository.
#[derive(Debug, Clone, PartialEq)]
pub enum Provider {
    GitHub,
    AzureDevOps { org: String, project: String, repo: String },
}

pub open spec fn is_azure_url(u: Seq<char>) -> bool {
    contains_seq(u, "dev.azure.com"@) || contains_seq(u, ".visualstudio.com"@)
}

pub open spec fn has_suffix(s: Seq<char>, p: Seq<char>) -> bool {
    p.len() <= s.len() && s.skip(s.len() - p.len()) == p
}

/// A URL segment with each `%20` read back as a space.
pub open spec fn decode_spaces(s: Seq<char>) -> Seq<char>
    decreases s.len(),
{
    if s.len() == 0 {
        s
    } else if s.len() >= 3 && s[0] == '%' && s[1] == '2' && s[2] == '0' {
        seq![' '] + decode_spaces(s.skip(3))
    } else {
        seq![s[0]] + decode_spaces(s.skip(1))
    }
}

/// A host with any `user@` in front of it dropped.
pub open spec fn bare_host(h: Seq<char>) -> Seq<char> {
    split_on(h, '@').last()
}

/// The organization, project and repository of an HTTPS remote, given its
/// `/`-separated path (host first):
/// `[user@]dev.azure.com/ORG/PROJECT/_git/REPO`, or
/// `ORG.visualstudio.com/[DefaultCollection/]PROJECT/_git/REPO`.
pub open spec fn https_parts(path: Seq<Seq<char>>) -> Option<(Seq<char>, Seq<char>, Seq<char>)> {
    let host = bare_host(path[0]);
    let vs = ".visualstudio.com"@;
    if host == "dev.azure.com"@ && path.len() == 5 && path[3] == "_git"@ {
        Some((path[1], path[2], path[4]))
    } else if has_suffix(host, vs) && host.len() > vs.len() {
        let org = host.take(host.len() - vs.len());
        if path.len() == 4 && path[2] == "_git"@ {
            Some((org, path[1], path[3]))
        } else if path.len() == 5 && path[1] == "DefaultCollection"@ && path[3] == "_git"@ {
            Some((org, path[2], path[4]))
        } else {
            None
        }
    } else {
        None
    }
}

/// The organization, project and repository of an SSH remote:
/// `git@ssh.dev.azure.com:v3/ORG/PROJECT/REPO` or
/// `ORG@vs-ssh.visualstudio.com:v3/ORG/PROJECT/REPO`.
pub open spec fn ssh_parts(u: Seq<char>) -> Option<(Seq<char>, Seq<char>, Seq<char>)> {
    let at = split_on(u, ':');
    let host = bare_host(at[0]);
    if at.len() == 2 && (host == "ssh.dev.azure.com"@ || host == "vs-ssh.visualstudio.com"@) && has_prefix(at[1], "v3/"@) {
        let segs = split_on(at[1].skip(3), '/');
        if segs.len() == 3 {
            Some((segs[0], segs[1], segs[2]))
        } else {
            None
        }
    } else {
        None
    }
}

/// The Azure DevOps repository an `origin` URL names, its segments decoded;
/// `None` when the URL is not one of the Azure DevOps forms, or a part is
/// empty.
pub open spec fn azure_remote(url: Seq<char>) -> Option<(Seq<char>, Seq<char>, Seq<char>)> {
    let u = trim(url);
    let parts = if has_prefix(u, "https://"@) {
        https_parts(split_on(u.skip(8), '/'))
    } else {
        ssh_parts(u)
    };
    match parts {
        Some((o, p, r)) => if o.len() > 0 && p.len() > 0 && r.len() > 0 {
            Some((decode_spaces(o), decode_spaces(p), decode_spaces(r)))
        } else {
            None
        },
        None => None,
    }
}

pub open spec fn unreadable_remote_text(url: Seq<char>) -> Seq<char> {
    "Could not read the Azure DevOps organization, project and repository from the origin URL '"@ + trim(url)
        + "'."@
}

pub open spec fn unknown_provider_text(v: Seq<char>) -> Seq<char> {
    "Unknown hosting provider '"@ + v + "' in bflow.hosting.provider: use github or devops."@
}

/// What detection gives for the configured override (trimmed) and the
/// `origin` URL.
pub open spec fn provider_result(configured: Option<Seq<char>>, url: Seq<char>, r: Result<Provider, String>) -> bool {
    let devops = match azure_remote(url) {
        Some((o, p, n)) => r matches Ok(Provider::AzureDevOps { org, project, repo }) && org@ == o && project@ == p
            && repo@ == n,
        None => r matches Err(e) && e@ == unreadable_remote_text(url),
    };
    match configured {
        Some(v) => if v == "github"@ {
            r matches Ok(Provider::GitHub)
        } else if v == "devops"@ {
            devops
        } else {
            r matches Err(e) && e@ == unknown_provider_text(v)
        },
        None => if is_azure_url(url) {
            devops
        } else {
            r matches Ok(Provider::GitHub)
        },
    }
}

/// The HTTPS clone URL Azure DevOps shows for a repository.
pub open spec fn canonical_remote(org: Seq<char>, project: Seq<char>, repo: Seq<char>) -> Seq<char> {
    "https://dev.azure.com/"@ + org + "/"@ + encode_spaces(project) + "/_git/"@ + encode_spaces(repo)
}

/// A name that can stand as one segment of such a URL: not empty, and no
/// `/`, `@` or `%`, and no whitespace but spaces.
pub open spec fn plain_segment(s: Seq<char>) -> bool {
    &&& s.len() > 0
    &&& forall|i: int| 0 <= i < s.len() ==> {
        &&& #[trigger] s[i] != '/'
        &&& s[i] != '@'
        &&& s[i] != '%'
        &&& (s[i] == ' ' || !is_ws(s[i]))
    }
}

proof fn lemma_encode_concat(a: Seq<char>, b: Seq<char>)
    ensures
        encode_spaces(a + b) == encode_spaces(a) + encode_spaces(b),
    decreases b.len(),
{
    if b.len() == 0 {
        assert(a + b =~= a);
    } else {
        lemma_encode_concat(a, b.drop_last());
        assert((a + b).drop_last() =~= a + b.drop_last());
    }
}

proof fn lemma_encode_one(x: char)
    ensures
        encode_spaces(seq![x]) == if x == ' ' {
            seq!['%', '2', '0']
        } else {
            seq![x]
        },
{
    reveal_strlit("%20");
    let one = seq![x];
    assert(one.drop_last() =~= Seq::<char>::empty());
    assert(encode_spaces(one.drop_last()) =~= Seq::<char>::empty());
    assert("%20"@ =~= seq!['%', '2', '0']);
    if x == ' ' {
        assert(encode_spaces(one) =~= seq!['%', '2', '0']);
    } else {
        assert(encode_spaces(one) =~= seq![x]);
    }
}

/// Encoding adds only `%`, `2` and `0`, and never empties a name.
proof fn lemma_encode_keeps(s: Seq<char>, c: char)
    requires
        no_char(s, c),
        c != '%' && c != '2' && c != '0',
    ensures
        no_char(encode_spaces(s), c),
        s.len() > 0 ==> encode_spaces(s).len() > 0,
    decreases s.len(),
{
    if s.len() > 0 {
        lemma_encode_keeps(s.drop_last(), c);
        lemma_encode_concat(s.drop_last(), seq![s.last()]);
        lemma_encode_one(s.last());
        assert(s.drop_last() + seq![s.last()] =~= s);
        let e = encode_spaces(s);
        let head = encode_spaces(s.drop_last());
        assert forall|i: int| 0 <= i < e.len() implies e[i] != c by {
            if i >= head.len() {
                assert(e[i] == encode_spaces(seq![s.last()])[i - head.len()]);
            } else {
                assert(e[i] == head[i]);
            }
        }
    }
}

/// The last character of an encoded plain name is not whitespace.
proof fn lemma_encode_last(s: Seq<char>)
    requires
        plain_segment(s),
    ensures
        !is_ws(encode_spaces(s).last()),
{
    lemma_encode_concat(s.drop_last(), seq![s.last()]);
    lemma_encode_one(s.last());
    assert(s.drop_last() + seq![s.last()] =~= s);
    assert(s[s.len() - 1] == s.last());
}

proof fn lemma_decode_encode(s: Seq<char>)
    requires
        no_char(s, '%'),
    ensures
        decode_spaces(encode_spaces(s)) == s,
    decreases s.len(),
{
    if s.len() > 0 {
        let x = s[0];
        let rest = s.drop_first();
        assert(seq![x] + rest =~= s);
        lemma_encode_concat(seq![x], rest);
        lemma_encode_one(x);
        assert(no_char(rest, '%')) by {
            assert forall|i: int| 0 <= i < rest.len() implies rest[i] != '%' by {
                assert(rest[i] == s[i + 1]);
            }
        }
        lemma_decode_encode(rest);
        let e = encode_spaces(s);
        if x == ' ' {
            assert(e.skip(3) =~= encode_spaces(rest));
        } else {
            assert(e.skip(1) =~= encode_spaces(rest));
            assert(e[0] == x);
        }
        assert(decode_spaces(e) =~= s);
    } else {
        assert(encode_spaces(s) =~= Seq::<char>::empty());
    }
}

proof fn lemma_decode_plain(s: Seq<char>)
    requires
        no_char(s, '%'),
    ensures
        decode_spaces(s) == s,
    decreases s.len(),
{
    if s.len() > 0 {
        assert(no_char(s.skip(1), '%')) by {
            assert forall|i: int| 0 <= i < s.skip(1).len() implies s.skip(1)[i] != '%' by {
                assert(s.skip(1)[i] == s[i + 1]);
            }
        }
        lemma_decode_plain(s.skip(1));
        assert(seq![s[0]] + s.skip(1) =~= s);
    }
}

/// The repository an Azure DevOps clone URL names is read back from it:
/// detection recovers the organization, project and repository that the
/// canonical URL was built from.
pub proof fn law_canonical_remote_round_trip(org: Seq<char>, project: Seq<char>, repo: Seq<char>)
    requires
        plain_segment(org),
        plain_segment(project),
        plain_segment(repo),
    ensures
        azure_remote(canonical_remote(org, project, repo)) == Some((org, project, repo)),
{
    reveal_strlit("https://dev.azure.com/");
    reveal_strlit("https://");
    reveal_strlit("dev.azure.com");
    reveal_strlit("/");
    reveal_strlit("/_git/");
    reveal_strlit("_git");
    let ep = encode_spaces(project);
    let er = encode_spaces(repo);
    let u = canonical_remote(org, project, repo);
    // Each segment is free of the separators.
    assert(no_char(org, '/') && no_char(org, '%') && no_char(org, '@'));
    assert(no_char(project, '/') && no_char(project, '%'));
    assert(no_char(repo, '/') && no_char(repo, '%'));
    lemma_encode_keeps(project, '/');
    lemma_encode_keeps(repo, '/');
    // The URL is already trimmed.
    lemma_encode_last(repo);
    assert(u.last() == er.last());
    assert(u[0] == 'h');
    lemma_trim_fixed(u);
    // After the scheme, the path splits into its five segments.
    let host = "dev.azure.com"@;
    let rest = host + seq!['/'] + org + seq!['/'] + ep + seq!['/'] + "_git"@ + seq!['/'] + er;
    assert(u =~= "https://"@ + rest);
    assert(has_prefix(u, "https://"@));
    assert(u.skip(8) =~= rest);
    assert(no_char(host, '/'));
    assert(no_char("_git"@, '/'));
    lemma_split_on_sep(host, '/', org + seq!['/'] + ep + seq!['/'] + "_git"@ + seq!['/'] + er);
    assert(rest =~= host + seq!['/'] + (org + seq!['/'] + ep + seq!['/'] + "_git"@ + seq!['/'] + er));
    lemma_split_on_sep(org, '/', ep + seq!['/'] + "_git"@ + seq!['/'] + er);
    assert(org + seq!['/'] + ep + seq!['/'] + "_git"@ + seq!['/'] + er =~= org + seq!['/'] + (ep + seq!['/'] + "_git"@
        + seq!['/'] + er));
    lemma_split_on_sep(ep, '/', "_git"@ + seq!['/'] + er);
    assert(ep + seq!['/'] + "_git"@ + seq!['/'] + er =~= ep + seq!['/'] + ("_git"@ + seq!['/'] + er));
    lemma_split_on_sep("_git"@, '/', er);
    lemma_split_on_whole(er, '/');
    let path = split_on(rest, '/');
    assert(path =~= seq![host, org, ep, "_git"@, er]);
    // The host carries no user.
    assert(no_char(host, '@'));
    lemma_split_on_whole(host, '@');
    assert(bare_host(path[0]) == host);
    assert(https_parts(path) == Some((org, ep, er)));
    // And the segments decode back.
    lemma_encode_keeps(project, '@');
    lemma_decode_plain(org);
    lemma_decode_encode(project);
    lemma_decode_encode(repo);
}

/// The `c`-separated pieces of `s`.
fn pieces(s: &str, c: char) -> (r: Vec<String>)
    ensures
        r@.map_values(|p: String| p@) =~= split_on(s@, c),
{
    let v = chars_of(s);
    let ranges = split_ranges(&v, c);
    let mut r: Vec<String> = Vec::new();
    let mut i: usize = 0;
    while i < ranges.len()
        invariant
            v@ == s@,
            i <= ranges@.len(),
            ranges@.len() == split_on(v@, c).len(),
            forall|k: int|
                0 <= k < ranges@.len() ==> {
                    &&& (#[trigger] ranges@[k]).0 <= ranges@[k].1 <= v@.len()
                    &&& v@.subrange(ranges@[k].0 as int, ranges@[k].1 as int) == split_on(v@, c)[k]
                },
            r@.map_values(|p: String| p@) =~= split_on(v@, c).take(i as int),
        decreases ranges@.len() - i,
    {
        let (lo, hi) = ranges[i];
        let piece = substring(s, lo, hi);
        r.push(piece);
        assert(split_on(v@, c).take(i + 1) =~= split_on(v@, c).take(i as int).push(split_on(v@, c)[i as int]));
        i = i + 1;
    }
    r
}

fn decode_segment(s: &str) -> (r: String)
    ensures
        r@ == decode_spaces(s@),
{
    let v = chars_of(s);
    let n = v.len();
    let mut out = String::new();
    let mut k: usize = 0;
    let mut seg: usize = 0;
    proof {
        assert(v@.skip(0) =~= v@);
    }
    while k < n
        invariant
            v@ == s@,
            n == v@.len(),
            seg <= k <= n,
            decode_spaces(s@) == out@ + v@.subrange(seg as int, k as int) + decode_spaces(v@.skip(k as int)),
        decreases n - k,
    {
        if n - k >= 3 && v[k] == '%' && v[k + 1] == '2' && v[k + 2] == '0' {
            proof {
                assert(v@.skip(k as int).skip(3) =~= v@.skip(k + 3));
            }
            let piece = substring(s, seg, k);
            out.append(piece.as_str());
            out.append(" ");
            proof {
                reveal_strlit(" ");
            }
            k = k + 3;
            seg = k;
            assert(v@.subrange(seg as int, k as int) =~= Seq::<char>::empty());
        } else {
            proof {
                assert(v@.skip(k as int).skip(1) =~= v@.skip(k + 1));
                assert(v@.subrange(seg as int, k + 1) =~= v@.subrange(seg as int, k as int).push(v@[k as int]));
            }
            k = k + 1;
        }
    }
    let piece = substring(s, seg, n);
    out.append(piece.as_str());
    proof {
        assert(v@.skip(n as int) =~= Seq::<char>::empty());
    }
    out
}

fn trimmed(s: &str) -> (r: String)
    ensures
        r@ == trim(s@),
{
    let v = chars_of(s);
    let (lo, hi) = trim_bounds(&v, 0, v.len());
    assert(v@.subrange(0, v@.len() as int) =~= v@);
    substring(s, lo, hi)
}

fn bare_host_of(h: &str) -> (r: String)
    ensures
        r@ == bare_host(h@),
{
    let p = pieces(h, '@');
    proof {
        crate::text::lemma_split_on_nonempty(h@, '@');
        assert(p@.len() == split_on(h@, '@').len());
        assert(p@[p@.len() - 1]@ == split_on(h@, '@')[p@.len() - 1]);
    }
    owned_str(p[p.len() - 1].as_str())
}

fn owned_str(s: &str) -> (r: String)
    ensures
        r@ == s@,
{
    String::from_str(s)
}

fn ends_with_str(s: &str, p: &str) -> (r: bool)
    ensures
        r == has_suffix(s@, p@),
{
    let v = chars_of(s);
    let n = v.len();
    let m = p.unicode_len();
    if m > n {
        return false;
    }
    let r = crate::text::range_eq(&v, n - m, n, p);
    assert(v@.skip(n - m) =~= v@.subrange(n - m, n as int));
    r
}

fn parts_of(a: &str, b: &str, c: &str) -> (r: Option<(String, String, String)>)
    ensures
        r matches Some((x, y, z)) && x@ == a@ && y@ == b@ && z@ == c@,
{
    Some((owned_str(a), owned_str(b), owned_str(c)))
}

pub open spec fn part_views(r: Option<(String, String, String)>) -> Option<(Seq<char>, Seq<char>, Seq<char>)> {
    match r {
        Some((x, y, z)) => Some((x@, y@, z@)),
        None => None,
    }
}

fn https_parts_of(path: &Vec<String>) -> (r: Option<(String, String, String)>)
    requires
        path@.len() >= 1,
    ensures
        part_views(r) == https_parts(path@.map_values(|p: String| p@)),
{
    let ghost pv = path@.map_values(|p: String| p@);
    let host = bare_host_of(path[0].as_str());
    let vs = ".visualstudio.com";
    proof {
        reveal_strlit(".visualstudio.com");
        assert(pv[0] == path@[0]@);
    }
    if string_eq(host.as_str(), "dev.azure.com") && path.len() == 5 && string_eq(path[3].as_str(), "_git") {
        proof {
            assert(pv[1] == path@[1]@ && pv[2] == path@[2]@ && pv[3] == path@[3]@ && pv[4] == path@[4]@);
        }
        return parts_of(path[1].as_str(), path[2].as_str(), path[4].as_str());
    }
    let hv = chars_of(host.as_str());
    if ends_with_str(host.as_str(), vs) && hv.len() > vs.unicode_len() {
        let org = substring(host.as_str(), 0, hv.len() - vs.unicode_len());
        assert(org@ =~= host@.take(host@.len() - vs@.len()));
        if path.len() == 4 && string_eq(path[2].as_str(), "_git") {
            proof {
                assert(pv[1] == path@[1]@ && pv[2] == path@[2]@ && pv[3] == path@[3]@);
            }
            return parts_of(org.as_str(), path[1].as_str(), path[3].as_str());
        }
        if path.len() == 5 && string_eq(path[1].as_str(), "DefaultCollection") && string_eq(path[3].as_str(), "_git") {
            proof {
                assert(pv[1] == path@[1]@ && pv[2] == path@[2]@ && pv[3] == path@[3]@ && pv[4] == path@[4]@);
            }
            return parts_of(org.as_str(), path[2].as_str(), path[4].as_str());
        }
        proof {
            if path@.len() == 4 {
                assert(pv[2] == path@[2]@);
            }
            if path@.len() == 5 {
                assert(pv[1] == path@[1]@ && pv[3] == path@[3]@);
            }
        }
        return None;
    }
    proof {
        if path@.len() == 5 {
            assert(pv[3] == path@[3]@);
        }
    }
    None
}

fn ssh_parts_of(u: &str) -> (r: Option<(String, String, String)>)
    ensures
        part_views(r) == ssh_parts(u@),
{
    let at = pieces(u, ':');
    let ghost av = at@.map_values(|p: String| p@);
    proof {
        crate::text::lemma_split_on_nonempty(u@, ':');
        assert(av[0] == at@[0]@);
    }
    let host = bare_host_of(at[0].as_str());
    if at.len() == 2 && (string_eq(host.as_str(), "ssh.dev.azure.com") || string_eq(host.as_str(), "vs-ssh.visualstudio.com")) {
        let rv = chars_of(at[1].as_str());
        proof {
            assert(av[1] == at@[1]@);
            assert(rv@.skip(0) =~= rv@);
        }
        if starts_with_at(&rv, 0, "v3/") {
            proof {
                reveal_strlit("v3/");
            }
            let rest = substring(at[1].as_str(), 3, rv.len());
            assert(rest@ =~= at@[1]@.skip(3)) by {
                reveal_strlit("v3/");
            }
            let segs = pieces(rest.as_str(), '/');
            if segs.len() == 3 {
                proof {
                    let sv = segs@.map_values(|p: String| p@);
                    assert(sv[0] == segs@[0]@ && sv[1] == segs@[1]@ && sv[2] == segs@[2]@);
                }
                return parts_of(segs[0].as_str(), segs[1].as_str(), segs[2].as_str());
            }
        }
    }
    None
}

/// The Azure DevOps repository an `origin` URL names, as `azure_remote`
/// reads it.
pub fn azure_remote_of(url: &str) -> (r: Option<(String, String, String)>)
    ensures
        part_views(r) == azure_remote(url@),
{
    let u = trimmed(url);
    let uv = chars_of(u.as_str());
    assert(uv@.skip(0) =~= uv@);
    let parts = if starts_with_at(&uv, 0, "https://") {
        proof {
            reveal_strlit("https://");
        }
        let rest = substring(u.as_str(), 8, uv.len());
        assert(rest@ =~= u@.skip(8)) by {
            reveal_strlit("https://");
        }
        let path = pieces(rest.as_str(), '/');
        proof {
            crate::text::lemma_split_on_nonempty(rest@, '/');
        }
        https_parts_of(&path)
    } else {
        ssh_parts_of(u.as_str())
    };
    match parts {
        Some((o, p, n)) => {
            if o.unicode_len() > 0 && p.unicode_len() > 0 && n.unicode_len() > 0 {
                Some((decode_segment(o.as_str()), decode_segment(p.as_str()), decode_segment(n.as_str())))
            } else {
                None
            }
        },
        None => None,
    }
}

fn unreadable_remote(url: &str) -> (r: String)
    ensures
        r@ == unreadable_remote_text(url@),
{
    let mut e = String::from_str(
        "Could not read the Azure DevOps organization, project and repository from the origin URL '",
    );
    e.append(trimmed(url).as_str());
    e.append("'.");
    e
}

fn devops_provider(url: &str) -> (r: Result<Provider, String>)
    ensures
        match azure_remote(url@) {
            Some((o, p, n)) => r matches Ok(Provider::AzureDevOps { org, project, repo }) && org@ == o && project@ == p
                && repo@ == n,
            None => r matches Err(e) && e@ == unreadable_remote_text(url@),
        },
{
    match azure_remote_of(url) {
        Some((org, project, repo)) => Ok(Provider::AzureDevOps { org, project, repo }),
        None => Err(unreadable_remote(url)),
    }
}

pub open spec fn trimmed_view(c: Option<&str>) -> Option<Seq<char>> {
    match c {
        Some(v) => Some(trim(v@)),
        None => None,
    }
}

/// The provider for the configured override (trimmed) and the `origin` URL.
pub fn choose_provider(configured: Option<&str>, url: &str) -> (r: Result<Provider, String>)
    ensures
        provider_result(trimmed_view(configured), url@, r),
{
    match configured {
        Some(c) => {
            let v = trimmed(c);
            if string_eq(v.as_str(), "github") {
                Ok(Provider::GitHub)
            } else if string_eq(v.as_str(), "devops") {
                devops_provider(url)
            } else {
                let mut e = String::from_str("Unknown hosting provider '");
                e.append(v.as_str());
                e.append("' in bflow.hosting.provider: use github or devops.");
                Err(e)
            }
        },
        None => {
            if contains_str(url, "dev.azure.com") || contains_str(url, ".visualstudio.com") {
                devops_provider(url)
            } else {
                Ok(Provider::GitHub)
            }
        },
    }
}

/// The override value as `detect` reads it: trimmed, when set.
pub open spec fn override_of(c: Option<Seq<char>>) -> Option<Seq<char>> {
    match c {
        Some(v) => Some(trim(v)),
        None => None,
    }
}

/// What detecting the platform asks of git (history `h` after `h0`): the
/// override `bflow.hosting.provider`, then the `origin` URL, and nothing
/// more; the result is `provider_result` of exactly those two answers, and a
/// failed answer is the error.
pub open spec fn detect_events(h0: Seq<GitEvent>, h: Seq<GitEvent>, r: Result<Provider, String>) -> bool {
    let k = h0.len() as int;
    &&& call_at(h, k, GitOp::GetConfig, seq!["bflow.hosting.provider"@])
    &&& match h[k].answer {
        GitAnswer::Failed(e) => h.len() == k + 1 && (r matches Err(m) && m@ == e),
        GitAnswer::MaybeText(c) => {
            &&& call_at(h, k + 1, GitOp::RemoteUrl, Seq::empty())
            &&& h.len() == k + 2
            &&& match h[k + 1].answer {
                GitAnswer::Failed(e) => r matches Err(m) && m@ == e,
                GitAnswer::Text(url) => provider_result(override_of(c), url, r),
                _ => false,
            }
        },
        _ => false,
    }
}

/// Detect the repository's hosting platform from its git config and its
/// `origin` remote.
pub fn detect<G: Git>(git: &mut G) -> (r: Result<Provider, String>)
    ensures
        crate::git::extends(final(git).history(), old(git).history()),
        r is Ok ==> exists|c: Option<Seq<char>>, u: Seq<char>| #[trigger] provider_result(c, u, r),
        detect_events(old(git).history(), final(git).history(), r),
{
    let configured = git.get_config("bflow.hosting.provider")?;
    let url = git.remote_url()?;
    match configured {
        Some(c) => {
            let r = choose_provider(Some(c.as_str()), url.as_str());
            assert(provider_result(Some(trim(c@)), url@, r));
            r
        },
        None => {
            let r = choose_provider(None, url.as_str());
            assert(provider_result(None, url@, r));
            r
        },
    }
}

/// Without an override, the platform follows the `origin` URL that git
/// answered: an Azure DevOps URL gives Azure DevOps with the organisation,
/// project and repository read from that URL, any other URL gives GitHub.
/// With the override `github` the URL does not matter.
pub proof fn law_detect_follows_origin(h0: Seq<GitEvent>, h: Seq<GitEvent>, r: Result<Provider, String>, url: Seq<char>)
    requires
        detect_events(h0, h, r),
        h.len() > h0.len() + 1,
        h[h0.len() as int + 1].answer == GitAnswer::Text(url),
    ensures
        h[h0.len() as int].answer == GitAnswer::MaybeText(None) && is_azure_url(url) ==> match azure_remote(url) {
            Some((o, p, n)) => r matches Ok(Provider::AzureDevOps { org, project, repo }) && org@ == o && project@ == p
                && repo@ == n,
            None => r is Err,
        },
        h[h0.len() as int].answer == GitAnswer::MaybeText(None) && !is_azure_url(url) ==> r == Ok::<Provider, String>(
            Provider::GitHub,
        ),
        (h[h0.len() as int].answer matches GitAnswer::MaybeText(Some(v)) && trim(v) == "github"@) ==> r
            == Ok::<Provider, String>(Provider::GitHub),
{
}

} // verus!
