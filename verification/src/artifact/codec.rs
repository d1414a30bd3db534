//! The artifact's JSON form: encoding to the compact text `serde_json`
//! writes for it, and decoding from a parsed document.

use vstd::prelude::*;

use super::json::{json_text, members_text, quoted, Json, JsonNumber};
use super::model::{
    opt_view, strings_view, Artifact, ArtifactView, PullRequest, PullRequestView, Release,
    ReleaseView,
};
use crate::text::{owned, push_char, str_eq};

verus! {

// --- Decimal text ------------------------------------------------------------

pub open spec fn digit(n: nat) -> char {
    ((('0' as u32) + n) as u32) as char
}

/// The decimal text of a natural number.
pub open spec fn dec_text(n: nat) -> Seq<char>
    decreases n,
{
    if n < 10 {
        seq![digit(n)]
    } else {
        dec_text(n / 10).push(digit(n % 10))
    }
}

/// Append the decimal text of `n`.
pub fn write_dec(out: &mut String, n: u64)
    ensures
        final(out)@ == old(out)@ + dec_text(n as nat),
    decreases n,
{
    let ghost start = out@;
    if n >= 10 {
        write_dec(out, n / 10);
    }
    let d = (n % 10) as u32;
    push_char(out, ((('0' as u32) + d) as u8) as char);
    assert(out@ =~= start + dec_text(n as nat));
}

/// The decimal text of `n`, as `u64::to_string` gives it.
pub fn dec_string(n: u64) -> (r: String)
    ensures
        r@ == dec_text(n as nat),
{
    let mut r = String::new();
    write_dec(&mut r, n);
    assert(r@ =~= dec_text(n as nat));
    r
}

// --- Object text from (key, value text) pairs ----------------------------------

pub open spec fn field_text(k: Seq<char>, v: Seq<char>) -> Seq<char> {
    quoted(k) + seq![':'] + v
}

pub open spec fn fields_text(f: Seq<(Seq<char>, Seq<char>)>) -> Seq<char>
    decreases f.len(),
{
    if f.len() == 0 {
        Seq::empty()
    } else if f.len() == 1 {
        field_text(f[0].0, f[0].1)
    } else {
        fields_text(f.drop_last()) + seq![','] + field_text(f.last().0, f.last().1)
    }
}

pub open spec fn object_text(f: Seq<(Seq<char>, Seq<char>)>) -> Seq<char> {
    seq!['{'] + fields_text(f) + seq!['}']
}

/// The document members carry the keys and value texts `f`.
pub open spec fn members_match(m: Seq<(String, Json)>, f: Seq<(Seq<char>, Seq<char>)>) -> bool {
    &&& m.len() == f.len()
    &&& forall|i: int| 0 <= i < m.len() ==> (#[trigger] m[i]).0@ == f[i].0 && json_text(m[i].1) == f[i].1
}

pub proof fn lemma_members_text(m: Seq<(String, Json)>, f: Seq<(Seq<char>, Seq<char>)>)
    requires
        members_match(m, f),
    ensures
        members_text(m) == fields_text(f),
    decreases m.len(),
{
    if m.len() > 1 {
        assert(members_match(m.drop_last(), f.drop_last())) by {
            assert forall|i: int| 0 <= i < m.drop_last().len() implies (#[trigger] m.drop_last()[i]).0@
                == f.drop_last()[i].0 && json_text(m.drop_last()[i].1) == f.drop_last()[i].1 by {
                assert(m.drop_last()[i] == m[i]);
            }
        }
        lemma_members_text(m.drop_last(), f.drop_last());
        assert(m.last() == m[m.len() - 1]);
    } else if m.len() == 1 {
        assert(m[0] == m[0]);
    }
}

pub open spec fn bool_text(b: bool) -> Seq<char> {
    if b {
        seq!['t', 'r', 'u', 'e']
    } else {
        seq!['f', 'a', 'l', 's', 'e']
    }
}

pub open spec fn strings_text(s: Seq<Seq<char>>) -> Seq<char>
    decreases s.len(),
{
    if s.len() == 0 {
        Seq::empty()
    } else if s.len() == 1 {
        quoted(s[0])
    } else {
        strings_text(s.drop_last()) + seq![','] + quoted(s.last())
    }
}

pub open spec fn with_opt(
    f: Seq<(Seq<char>, Seq<char>)>,
    key: Seq<char>,
    v: Option<Seq<char>>,
) -> Seq<(Seq<char>, Seq<char>)> {
    match v {
        Some(t) => f.push((key, t)),
        None => f,
    }
}

pub open spec fn opt_quoted(o: Option<Seq<char>>) -> Option<Seq<char>> {
    match o {
        Some(s) => Some(quoted(s)),
        None => None,
    }
}

pub open spec fn opt_bool_text(o: Option<bool>) -> Option<Seq<char>> {
    match o {
        Some(b) => Some(bool_text(b)),
        None => None,
    }
}

/// Members of a serialized `release` object, in declaration order.
pub open spec fn release_fields(r: ReleaseView) -> Seq<(Seq<char>, Seq<char>)> {
    let f = with_opt(Seq::empty(), "name"@, opt_quoted(r.name));
    let f = with_opt(f, "notes"@, opt_quoted(r.notes));
    let f = with_opt(f, "prerelease"@, opt_bool_text(r.prerelease));
    with_opt(f, "make_latest"@, opt_bool_text(r.make_latest))
}

/// Members of a serialized `pull_request` object; empty labels are omitted.
pub open spec fn pull_request_fields(p: PullRequestView) -> Seq<(Seq<char>, Seq<char>)> {
    let f = with_opt(Seq::empty(), "title"@, opt_quoted(p.title));
    let f = with_opt(f, "body"@, opt_quoted(p.body));
    if p.labels.len() == 0 {
        f
    } else {
        f.push(("labels"@, seq!['['] + strings_text(p.labels) + seq![']']))
    }
}

/// Members of a serialized artifact; absent optional fields are omitted.
pub open spec fn artifact_fields(a: ArtifactView) -> Seq<(Seq<char>, Seq<char>)> {
    let f = seq![("schemaVersion"@, dec_text(a.schema_version as nat)), ("changed"@, bool_text(a.changed))];
    let f = with_opt(f, "version"@, opt_quoted(a.version));
    let f = with_opt(f, "tag"@, opt_quoted(a.tag));
    let f = with_opt(
        f,
        "release"@,
        match a.release {
            Some(r) => Some(object_text(release_fields(r))),
            None => None,
        },
    );
    with_opt(
        f,
        "pull_request"@,
        match a.pull_request {
            Some(p) => Some(object_text(pull_request_fields(p))),
            None => None,
        },
    )
}

/// The compact JSON text of an artifact, as `serde_json::to_string` writes it.
pub open spec fn artifact_text(a: ArtifactView) -> Seq<char> {
    object_text(artifact_fields(a))
}

// --- Building the document -----------------------------------------------------

/// Looking a key up after appending a member: an earlier member with that
/// key still wins; otherwise the new one, if it has that key.
proof fn lemma_member_push_one(m: Seq<(String, Json)>, e: (String, Json), k: Seq<char>)
    ensures
        member(m.push(e), k) == (match member(m, k) {
            Some(x) => Some(x),
            None => if k == e.0@ { Some(e.1) } else { None },
        }),
    decreases m.len(),
{
    let mp = m.push(e);
    if m.len() > 0 {
        assert(mp[0] == m[0]);
        assert(mp.drop_first() =~= m.drop_first().push(e));
        lemma_member_push_one(m.drop_first(), e, k);
        if m[0].0@ == k {
            assert(member(mp, k) == Some(m[0].1));
            assert(member(m, k) == Some(m[0].1));
        } else {
            assert(member(mp, k) == member(mp.drop_first(), k));
            assert(member(m, k) == member(m.drop_first(), k));
        }
    } else {
        assert(mp[0] == e);
        assert(mp.drop_first() =~= Seq::<(String, Json)>::empty());
        assert(member(m, k) is None);
        if e.0@ == k {
            assert(member(mp, k) == Some(e.1));
        } else {
            assert(member(mp, k) == member(mp.drop_first(), k));
            assert(member(mp.drop_first(), k) is None);
        }
    }
}

proof fn lemma_member_push(m: Seq<(String, Json)>, e: (String, Json))
    ensures
        forall|k: Seq<char>| #[trigger] member(m.push(e), k) == (match member(m, k) {
            Some(x) => Some(x),
            None => if k == e.0@ { Some(e.1) } else { None },
        }),
{
    assert forall|k: Seq<char>| #[trigger] member(m.push(e), k) == (match member(m, k) {
        Some(x) => Some(x),
        None => if k == e.0@ { Some(e.1) } else { None },
    }) by {
        lemma_member_push_one(m, e, k);
    }
}

proof fn lemma_artifact_keys()
    ensures
        "schemaVersion"@ != "changed"@,
        "schemaVersion"@ != "version"@,
        "schemaVersion"@ != "tag"@,
        "schemaVersion"@ != "release"@,
        "schemaVersion"@ != "pull_request"@,
        "changed"@ != "version"@,
        "changed"@ != "tag"@,
        "changed"@ != "release"@,
        "changed"@ != "pull_request"@,
        "version"@ != "tag"@,
        "version"@ != "release"@,
        "version"@ != "pull_request"@,
        "tag"@ != "release"@,
        "tag"@ != "pull_request"@,
        "release"@ != "pull_request"@,
{
    reveal_strlit("schemaVersion");
    reveal_strlit("changed");
    reveal_strlit("version");
    reveal_strlit("tag");
    reveal_strlit("release");
    reveal_strlit("pull_request");
    assert("schemaVersion"@.len() == 13);
    assert("changed"@.len() == 7);
    assert("version"@.len() == 7);
    assert("tag"@.len() == 3);
    assert("release"@.len() == 7);
    assert("pull_request"@.len() == 12);
    assert("changed"@[0] != "version"@[0]);
    assert("changed"@[0] != "release"@[0]);
    assert("version"@[0] != "release"@[0]);
}

proof fn lemma_pull_request_keys()
    ensures
        "title"@ != "body"@,
        "title"@ != "labels"@,
        "body"@ != "labels"@,
{
    reveal_strlit("title");
    reveal_strlit("body");
    reveal_strlit("labels");
    assert("title"@.len() == 5);
    assert("body"@.len() == 4);
    assert("labels"@.len() == 6);
}

fn push_member(
    m: &mut Vec<(String, Json)>,
    Ghost(f): Ghost<Seq<(Seq<char>, Seq<char>)>>,
    key: &str,
    value: Json,
) -> (g: Ghost<Seq<(Seq<char>, Seq<char>)>>)
    requires
        members_match(old(m)@, f),
    ensures
        g@ == f.push((key@, json_text(value))),
        members_match(final(m)@, g@),
        forall|k: Seq<char>| #[trigger] member(final(m)@, k) == (match member(old(m)@, k) {
            Some(x) => Some(x),
            None => if k == key@ { Some(value) } else { None },
        }),
{
    let ghost vt = json_text(value);
    let ghost before = m@;
    let ghost v = value;
    m.push((owned(key), value));
    proof {
        lemma_member_push(before, m@.last());
        assert(m@ == before.push(m@.last()));
    }
    let ghost g = f.push((key@, vt));
    assert(members_match(m@, g)) by {
        assert forall|i: int| 0 <= i < m@.len() implies (#[trigger] m@[i]).0@ == g[i].0 && json_text(
            m@[i].1,
        ) == g[i].1 by {
            if i < f.len() {
                assert(m@[i] == old(m)@[i]);
            }
        }
    }
    Ghost(g)
}

fn push_opt_string(
    m: &mut Vec<(String, Json)>,
    Ghost(f): Ghost<Seq<(Seq<char>, Seq<char>)>>,
    key: &str,
    value: &Option<String>,
) -> (g: Ghost<Seq<(Seq<char>, Seq<char>)>>)
    requires
        members_match(old(m)@, f),
    ensures
        g@ == with_opt(f, key@, opt_quoted(opt_view(*value))),
        members_match(final(m)@, g@),
        forall|k: Seq<char>| #[trigger] member(final(m)@, k) == (match member(old(m)@, k) {
            Some(x) => Some(x),
            None => if k == key@ { match *value { Some(s) => Some(Json::Str(s)), None => None } } else { None },
        }),
{
    match value {
        Some(s) => {
            let c = s.clone();
            assert(c == *s);
            push_member(m, Ghost(f), key, Json::Str(c))
        },
        None => Ghost(f),
    }
}

fn push_opt_bool(
    m: &mut Vec<(String, Json)>,
    Ghost(f): Ghost<Seq<(Seq<char>, Seq<char>)>>,
    key: &str,
    value: Option<bool>,
) -> (g: Ghost<Seq<(Seq<char>, Seq<char>)>>)
    requires
        members_match(old(m)@, f),
    ensures
        g@ == with_opt(f, key@, opt_bool_text(value)),
        members_match(final(m)@, g@),
        forall|k: Seq<char>| #[trigger] member(final(m)@, k) == (match member(old(m)@, k) {
            Some(x) => Some(x),
            None => if k == key@ { match value { Some(b) => Some(Json::Bool(b)), None => None } } else { None },
        }),
{
    match value {
        Some(b) => {
            let g = push_member(m, Ghost(f), key, Json::Bool(b));
            g
        },
        None => Ghost(f),
    }
}

/// The document of a `release` object.
pub fn release_json(r: &Release) -> (j: Json)
    ensures
        json_text(j) == object_text(release_fields(r@)),
        j matches Json::Object(m) && decode_release(m@) == Some(r@),
{
    let mut m: Vec<(String, Json)> = Vec::new();
    let g = Ghost(Seq::empty());
    let g = push_opt_string(&mut m, g, "name", &r.name);
    let g = push_opt_string(&mut m, g, "notes", &r.notes);
    let g = push_opt_bool(&mut m, g, "prerelease", r.prerelease);
    let g = push_opt_bool(&mut m, g, "make_latest", r.make_latest);
    proof {
        lemma_members_text(m@, g@);
        reveal_strlit("name");
        reveal_strlit("notes");
        reveal_strlit("prerelease");
        reveal_strlit("make_latest");
        assert(member(Seq::<(String, Json)>::empty(), "name"@) is None);
        assert(member(Seq::<(String, Json)>::empty(), "notes"@) is None);
        assert(member(Seq::<(String, Json)>::empty(), "prerelease"@) is None);
        assert(member(Seq::<(String, Json)>::empty(), "make_latest"@) is None);
        assert(opt_string_field(member(m@, "name"@)) == Some(opt_view(r.name)));
        assert(opt_string_field(member(m@, "notes"@)) == Some(opt_view(r.notes)));
        assert(opt_bool_field(member(m@, "prerelease"@)) == Some(r.prerelease));
        assert(opt_bool_field(member(m@, "make_latest"@)) == Some(r.make_latest));
    }
    Json::Object(m)
}

/// The document of an array of strings.
pub fn strings_json(v: &Vec<String>) -> (j: Json)
    ensures
        json_text(j) == seq!['['] + strings_text(strings_view(v@)) + seq![']'],
        j matches Json::Array(items) && all_strings(items@) && string_items(items@) == strings_view(v@),
{
    let mut items: Vec<Json> = Vec::new();
    let mut i: usize = 0;
    while i < v.len()
        invariant
            i <= v@.len(),
            items@.len() == i,
            forall|k: int| 0 <= k < i ==> json_text(#[trigger] items@[k]) == quoted(v@[k]@),
            forall|k: int| 0 <= k < i ==> (#[trigger] items@[k] matches Json::Str(x) && x@ == v@[k]@),
        decreases v.len() - i,
    {
        let c = v[i].clone();
        assert(c@ == v@[i as int]@);
        items.push(Json::Str(c));
        i += 1;
    }
    proof {
        lemma_items_strings(items@, strings_view(v@));
        assert(string_items(items@) =~= strings_view(v@));
    }
    Json::Array(items)
}

proof fn lemma_items_strings(items: Seq<Json>, s: Seq<Seq<char>>)
    requires
        items.len() == s.len(),
        forall|k: int| 0 <= k < items.len() ==> json_text(#[trigger] items[k]) == quoted(s[k]),
    ensures
        super::json::items_text(items) == strings_text(s),
    decreases items.len(),
{
    if items.len() > 1 {
        assert forall|k: int| 0 <= k < items.drop_last().len() implies json_text(
            #[trigger] items.drop_last()[k],
        ) == quoted(s.drop_last()[k]) by {
            assert(items.drop_last()[k] == items[k]);
        }
        lemma_items_strings(items.drop_last(), s.drop_last());
        assert(json_text(items[items.len() - 1]) == quoted(s[s.len() - 1]));
    } else if items.len() == 1 {
        assert(json_text(items[0]) == quoted(s[0]));
    }
}

/// The document of a `pull_request` object.
pub fn pull_request_json(p: &PullRequest) -> (j: Json)
    ensures
        json_text(j) == object_text(pull_request_fields(p@)),
        j matches Json::Object(m) && decode_pull_request(m@) == Some(p@),
{
    let mut m: Vec<(String, Json)> = Vec::new();
    let g = Ghost(Seq::empty());
    proof {
        lemma_pull_request_keys();
        assert(member(m@, "title"@) is None);
        assert(member(m@, "body"@) is None);
        assert(member(m@, "labels"@) is None);
    }
    let g = push_opt_string(&mut m, g, "title", &p.title);
    let g = push_opt_string(&mut m, g, "body", &p.body);
    assert(opt_string_field(member(m@, "title"@)) == Some(opt_view(p.title)));
    assert(opt_string_field(member(m@, "body"@)) == Some(opt_view(p.body)));
    let g = if p.labels.len() == 0 {
        assert(labels_field(member(m@, "labels"@)) == Some(strings_view(p.labels@)));
        g
    } else {
        let lj = strings_json(&p.labels);
        let ghost ljv = lj;
        let g2 = push_member(&mut m, g, "labels", lj);
        assert(member(m@, "labels"@) == Some(ljv));
        assert(labels_field(member(m@, "labels"@)) == Some(strings_view(p.labels@)));
        assert(opt_string_field(member(m@, "title"@)) == Some(opt_view(p.title)));
        assert(opt_string_field(member(m@, "body"@)) == Some(opt_view(p.body)));
        g2
    };
    proof {
        lemma_members_text(m@, g@);
    }
    Json::Object(m)
}

/// The document of an artifact, as `serde_json` would serialize it.
pub fn artifact_json(a: &Artifact) -> (j: Json)
    ensures
        json_text(j) == artifact_text(a@),
        decode_artifact(j) == Some(a@),
{
    let mut m: Vec<(String, Json)> = Vec::new();
    let ghost m0 = m@;
    let g = Ghost(Seq::empty());
    proof {
        reveal_strlit("schemaVersion");
        reveal_strlit("changed");
        reveal_strlit("version");
        reveal_strlit("tag");
        reveal_strlit("release");
        reveal_strlit("pull_request");
        assert(member(m@, "schemaVersion"@) is None);
        assert(member(m@, "changed"@) is None);
        assert(member(m@, "version"@) is None);
        assert(member(m@, "tag"@) is None);
        assert(member(m@, "release"@) is None);
        assert(member(m@, "pull_request"@) is None);
    }
    let g = push_member(
        &mut m,
        g,
        "schemaVersion",
        Json::Number(JsonNumber { text: dec_string(a.schema_version as u64), as_u64: Some(a.schema_version as u64) }),
    );
    let ghost m1 = m@;
    proof {
        lemma_artifact_keys();
    }
    assert(member(m1, "changed"@) == (match member(m0, "changed"@) {
        Some(x) => Some(x),
        None => if "changed"@ == "schemaVersion"@ { Some(Json::Bool(true)) } else { None },
    }));
    assert(member(m1, "changed"@) is None);
    assert(member(m1, "version"@) is None);
    assert(member(m1, "tag"@) is None);
    let g = push_member(&mut m, g, "changed", Json::Bool(a.changed));
    let ghost m2 = m@;
    assert(member(m2, "changed"@) == Some(Json::Bool(a.changed)));
    assert(member(m2, "version"@) is None);
    let g = push_opt_string(&mut m, g, "version", &a.version);
    let g = push_opt_string(&mut m, g, "tag", &a.tag);
    let ghost early = m@;
    assert(u32_field(member(early, "schemaVersion"@)) == Some(a.schema_version));
    assert(bool_field(member(early, "changed"@)) == Some(a.changed));
    assert(opt_string_field(member(early, "version"@)) == Some(opt_view(a.version)));
    assert(opt_string_field(member(early, "tag"@)) == Some(opt_view(a.tag)));
    let g = match &a.release {
        Some(r) => {
            let rj = release_json(r);
            let ghost rjv = rj;
            let g2 = push_member(&mut m, g, "release", rj);
            assert(member(m@, "release"@) == Some(rjv));
            g2
        },
        None => g,
    };
    let ghost middle = m@;
    assert(release_field(member(middle, "release"@)) == Some(a@.release));
    assert(forall|k: Seq<char>| k != "release"@ ==> #[trigger] member(middle, k) == member(early, k));
    let g = match &a.pull_request {
        Some(p) => {
            let pj = pull_request_json(p);
            let ghost pjv = pj;
            let g2 = push_member(&mut m, g, "pull_request", pj);
            assert(member(m@, "pull_request"@) == Some(pjv));
            g2
        },
        None => g,
    };
    assert(pull_request_field(member(m@, "pull_request"@)) == Some(a@.pull_request));
    assert(forall|k: Seq<char>| k != "pull_request"@ ==> #[trigger] member(m@, k) == member(middle, k));
    proof {
        reveal_strlit("true");
        reveal_strlit("false");
        lemma_members_text(m@, g@);
        assert(g@ =~= artifact_fields(a@));
        assert(member(m@, "schemaVersion"@) == member(early, "schemaVersion"@));
        assert(member(m@, "changed"@) == member(early, "changed"@));
        assert(member(m@, "version"@) == member(early, "version"@));
        assert(member(m@, "tag"@) == member(early, "tag"@));
        assert(member(m@, "release"@) == member(middle, "release"@));
    }
    Json::Object(m)
}

/// The compact JSON text of an artifact.
pub fn artifact_to_string(a: &Artifact) -> (r: String)
    ensures
        r@ == artifact_text(a@),
{
    super::json::to_json_text(&artifact_json(a))
}

} // verus!

verus! {

// --- Decoding ------------------------------------------------------------------

/// The first member of `m` named `key`.
pub open spec fn member(m: Seq<(String, Json)>, key: Seq<char>) -> Option<Json>
    decreases m.len(),
{
    if m.len() == 0 {
        None
    } else if m[0].0@ == key {
        Some(m[0].1)
    } else {
        member(m.drop_first(), key)
    }
}

/// An `Option<String>` field: absent and `null` are `None`.
pub open spec fn opt_string_field(v: Option<Json>) -> Option<Option<Seq<char>>> {
    match v {
        None => Some(None),
        Some(Json::Null) => Some(None),
        Some(Json::Str(s)) => Some(Some(s@)),
        _ => None,
    }
}

/// An `Option<bool>` field: absent and `null` are `None`.
pub open spec fn opt_bool_field(v: Option<Json>) -> Option<Option<bool>> {
    match v {
        None => Some(None),
        Some(Json::Null) => Some(None),
        Some(Json::Bool(b)) => Some(Some(b)),
        _ => None,
    }
}

/// A required `bool` field.
pub open spec fn bool_field(v: Option<Json>) -> Option<bool> {
    match v {
        Some(Json::Bool(b)) => Some(b),
        _ => None,
    }
}

/// A required `u32` field: a non-negative integer that fits.
pub open spec fn u32_field(v: Option<Json>) -> Option<u32> {
    match v {
        Some(Json::Number(n)) => match n.as_u64 {
            Some(x) => if x <= u32::MAX {
                Some(x as u32)
            } else {
                None
            },
            None => None,
        },
        _ => None,
    }
}

/// Every item is a string.
pub open spec fn all_strings(items: Seq<Json>) -> bool {
    forall|i: int| 0 <= i < items.len() ==> (#[trigger] items[i]) is Str
}

/// The string items' texts.
pub open spec fn string_items(items: Seq<Json>) -> Seq<Seq<char>> {
    items.map_values(|j: Json| j->Str_0@)
}

/// A defaulted `Vec<String>` field: absent is empty; `null` is refused.
pub open spec fn labels_field(v: Option<Json>) -> Option<Seq<Seq<char>>> {
    match v {
        None => Some(Seq::empty()),
        Some(Json::Array(items)) => if all_strings(items@) {
            Some(string_items(items@))
        } else {
            None
        },
        _ => None,
    }
}

/// Decode a `release` object.
pub open spec fn decode_release(m: Seq<(String, Json)>) -> Option<ReleaseView> {
    match (
        opt_string_field(member(m, "name"@)),
        opt_string_field(member(m, "notes"@)),
        opt_bool_field(member(m, "prerelease"@)),
        opt_bool_field(member(m, "make_latest"@)),
    ) {
        (Some(name), Some(notes), Some(prerelease), Some(make_latest)) => Some(
            ReleaseView { name, notes, prerelease, make_latest },
        ),
        _ => None,
    }
}

/// Decode a `pull_request` object.
pub open spec fn decode_pull_request(m: Seq<(String, Json)>) -> Option<PullRequestView> {
    match (
        opt_string_field(member(m, "title"@)),
        opt_string_field(member(m, "body"@)),
        labels_field(member(m, "labels"@)),
    ) {
        (Some(title), Some(body), Some(labels)) => Some(PullRequestView { title, body, labels }),
        _ => None,
    }
}

/// An optional nested object: absent and `null` are `None`.
pub open spec fn release_field(v: Option<Json>) -> Option<Option<ReleaseView>> {
    match v {
        None => Some(None),
        Some(Json::Null) => Some(None),
        Some(Json::Object(m)) => match decode_release(m@) {
            Some(r) => Some(Some(r)),
            None => None,
        },
        _ => None,
    }
}

pub open spec fn pull_request_field(v: Option<Json>) -> Option<Option<PullRequestView>> {
    match v {
        None => Some(None),
        Some(Json::Null) => Some(None),
        Some(Json::Object(m)) => match decode_pull_request(m@) {
            Some(p) => Some(Some(p)),
            None => None,
        },
        _ => None,
    }
}

/// Decode an artifact from a JSON document, as a derived `Deserialize`
/// reads an object: unknown members are ignored, optional members may be
/// absent or `null`, required members must have the right type.
pub open spec fn decode_artifact(j: Json) -> Option<ArtifactView> {
    match j {
        Json::Object(m) => match (
            u32_field(member(m@, "schemaVersion"@)),
            bool_field(member(m@, "changed"@)),
            opt_string_field(member(m@, "version"@)),
            opt_string_field(member(m@, "tag"@)),
            release_field(member(m@, "release"@)),
            pull_request_field(member(m@, "pull_request"@)),
        ) {
            (Some(sv), Some(ch), Some(version), Some(tag), Some(release), Some(pull_request)) => Some(
                ArtifactView { schema_version: sv, changed: ch, version, tag, release, pull_request },
            ),
            _ => None,
        },
        _ => None,
    }
}

/// The first member named `key`.
pub fn find_member<'a>(m: &'a Vec<(String, Json)>, key: &str) -> (r: Option<&'a Json>)
    ensures
        match r {
            Some(v) => member(m@, key@) == Some(*v),
            None => member(m@, key@) is None,
        },
{
    let mut i: usize = 0;
    assert(m@.subrange(0, m@.len() as int) =~= m@);
    while i < m.len()
        invariant
            i <= m@.len(),
            member(m@, key@) == member(m@.subrange(i as int, m@.len() as int), key@),
        decreases m.len() - i,
    {
        assert(m@.subrange(i as int, m@.len() as int)[0] == m@[i as int]);
        if str_eq(m[i].0.as_str(), key) {
            return Some(&m[i].1);
        }
        assert(m@.subrange(i as int, m@.len() as int).drop_first() =~= m@.subrange(i + 1, m@.len() as int));
        i += 1;
    }
    None
}

fn opt_string_of(v: Option<&Json>) -> (r: Result<Option<String>, ()>)
    ensures
        match r {
            Ok(s) => opt_string_field(opt_deref(v)) == Some(opt_view(s)),
            Err(_) => opt_string_field(opt_deref(v)) is None,
        },
{
    match v {
        None => Ok(None),
        Some(Json::Null) => Ok(None),
        Some(Json::Str(s)) => Ok(Some(s.clone())),
        _ => Err(()),
    }
}

fn opt_bool_of(v: Option<&Json>) -> (r: Result<Option<bool>, ()>)
    ensures
        match r {
            Ok(b) => opt_bool_field(opt_deref(v)) == Some(b),
            Err(_) => opt_bool_field(opt_deref(v)) is None,
        },
{
    match v {
        None => Ok(None),
        Some(Json::Null) => Ok(None),
        Some(Json::Bool(b)) => Ok(Some(*b)),
        _ => Err(()),
    }
}

pub open spec fn opt_deref(v: Option<&Json>) -> Option<Json> {
    match v {
        Some(x) => Some(*x),
        None => None,
    }
}

fn labels_of(v: Option<&Json>) -> (r: Result<Vec<String>, ()>)
    ensures
        match r {
            Ok(l) => labels_field(opt_deref(v)) == Some(strings_view(l@)),
            Err(_) => labels_field(opt_deref(v)) is None,
        },
{
    match v {
        None => {
            let l: Vec<String> = Vec::new();
            assert(strings_view(l@) =~= Seq::<Seq<char>>::empty());
            Ok(l)
        },
        Some(Json::Array(items)) => {
            let mut l: Vec<String> = Vec::new();
            let mut i: usize = 0;
            while i < items.len()
                invariant
                    opt_deref(v) == Some(Json::Array(*items)),
                    i <= items@.len(),
                    l@.len() == i,
                    forall|k: int| 0 <= k < i ==> (#[trigger] items@[k]) is Str && l@[k]@ == items@[k]->Str_0@,
                decreases items.len() - i,
            {
                match &items[i] {
                    Json::Str(s) => l.push(s.clone()),
                    _ => {
                        assert(!(items@[i as int] is Str));
                        assert(!all_strings(items@));
                        return Err(());
                    },
                }
                i += 1;
            }
            assert(strings_view(l@) =~= string_items(items@));
            Ok(l)
        },
        _ => Err(()),
    }
}

fn release_of(m: &Vec<(String, Json)>) -> (r: Result<Release, ()>)
    ensures
        match r {
            Ok(rel) => decode_release(m@) == Some(rel@),
            Err(_) => decode_release(m@) is None,
        },
{
    let name = opt_string_of(find_member(m, "name"))?;
    let notes = opt_string_of(find_member(m, "notes"))?;
    let prerelease = opt_bool_of(find_member(m, "prerelease"))?;
    let make_latest = opt_bool_of(find_member(m, "make_latest"))?;
    Ok(Release { name, notes, prerelease, make_latest })
}

fn pull_request_of(m: &Vec<(String, Json)>) -> (r: Result<PullRequest, ()>)
    ensures
        match r {
            Ok(p) => decode_pull_request(m@) == Some(p@),
            Err(_) => decode_pull_request(m@) is None,
        },
{
    let title = opt_string_of(find_member(m, "title"))?;
    let body = opt_string_of(find_member(m, "body"))?;
    let labels = labels_of(find_member(m, "labels"))?;
    Ok(PullRequest { title, body, labels })
}

/// Decode an artifact from a parsed document; see [`decode_artifact`].
pub fn artifact_from_json(j: &Json) -> (r: Result<Artifact, ()>)
    ensures
        match r {
            Ok(a) => decode_artifact(*j) == Some(a@),
            Err(_) => decode_artifact(*j) is None,
        },
{
    let Json::Object(m) = j else {
        return Err(());
    };
    let schema_version = match find_member(m, "schemaVersion") {
        Some(Json::Number(n)) => match n.as_u64 {
            Some(x) => if x <= u32::MAX as u64 {
                x as u32
            } else {
                return Err(());
            },
            None => return Err(()),
        },
        _ => return Err(()),
    };
    let changed = match find_member(m, "changed") {
        Some(Json::Bool(b)) => *b,
        _ => return Err(()),
    };
    let version = opt_string_of(find_member(m, "version"))?;
    let tag = opt_string_of(find_member(m, "tag"))?;
    let release = match find_member(m, "release") {
        None => None,
        Some(Json::Null) => None,
        Some(Json::Object(rm)) => Some(release_of(rm)?),
        _ => return Err(()),
    };
    let pull_request = match find_member(m, "pull_request") {
        None => None,
        Some(Json::Null) => None,
        Some(Json::Object(pm)) => Some(pull_request_of(pm)?),
        _ => return Err(()),
    };
    Ok(Artifact { schema_version, changed, version, tag, release, pull_request })
}

} // verus!
