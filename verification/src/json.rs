//! A JSON encoding of [`ProfileData`], used as the context document that the
//! template engine binds.
//!
//! Absent optional fields are omitted from the emitted object (not written as
//! null), so a theme that references them sees an undefined value and renders
//! it as the empty string.

use vstd::prelude::*;
use vstd::string::StrSliceExecFns;
use vstd::string::StringExecFns;

use crate::profile::InstanceInfo;
use crate::profile::LinkInfo;
use crate::profile::PageInfo;
use crate::profile::ProfileData;
use crate::profile::SocialLinkInfo;

verus! {

/// The hexadecimal digit for `n` in `0 .. 16`.
pub open spec fn hex_digit(n: int) -> char {
    if n == 0 { '0' }
    else if n == 1 { '1' }
    else if n == 2 { '2' }
    else if n == 3 { '3' }
    else if n == 4 { '4' }
    else if n == 5 { '5' }
    else if n == 6 { '6' }
    else if n == 7 { '7' }
    else if n == 8 { '8' }
    else if n == 9 { '9' }
    else if n == 10 { 'a' }
    else if n == 11 { 'b' }
    else if n == 12 { 'c' }
    else if n == 13 { 'd' }
    else if n == 14 { 'e' }
    else { 'f' }
}

/// How one character appears inside a JSON string literal: quotes and
/// backslashes get a backslash escape, the common control characters their
/// short escapes, any other control character a `\u00..` escape, and
/// everything else stands as itself.
pub open spec fn escaped_char(c: char) -> Seq<char> {
    if c == '"' { seq!['\\', '"'] }
    else if c == '\\' { seq!['\\', '\\'] }
    else if c == '\n' { seq!['\\', 'n'] }
    else if c == '\r' { seq!['\\', 'r'] }
    else if c == '\t' { seq!['\\', 't'] }
    else if (c as u32) < 32 {
        seq!['\\', 'u', '0', '0', hex_digit((c as u32) as int / 16), hex_digit((c as u32) as int % 16)]
    } else {
        seq![c]
    }
}

/// A text with each character escaped for a JSON string literal.
pub open spec fn escaped(s: Seq<char>) -> Seq<char>
    decreases s,
{
    if s.len() == 0 {
        Seq::empty()
    } else {
        escaped(s.drop_last()) + escaped_char(s.last())
    }
}

/// A JSON string literal: the escaped text between double quotes.
pub open spec fn json_str(s: Seq<char>) -> Seq<char> {
    seq!['"'] + escaped(s) + seq!['"']
}

/// An optional object member: `prefix` (a comma, the key and a colon) and the
/// value when present, nothing when absent.
pub open spec fn opt_field(prefix: Seq<char>, v: Option<String>) -> Seq<char> {
    match v {
        Some(s) => prefix + json_str(s@),
        None => Seq::empty(),
    }
}

/// The hexadecimal digit for `n` in `0 .. 16`, as a one-character text.
fn hex_digit_str(n: u32) -> (r: &'static str)
    requires
        n < 16,
    ensures
        r@ == seq![hex_digit(n as int)],
{
    let r: &'static str = match n {
        0 => "0",
        1 => "1",
        2 => "2",
        3 => "3",
        4 => "4",
        5 => "5",
        6 => "6",
        7 => "7",
        8 => "8",
        9 => "9",
        10 => "a",
        11 => "b",
        12 => "c",
        13 => "d",
        14 => "e",
        _ => "f",
    };
    proof {
        reveal_strlit("0");
        reveal_strlit("1");
        reveal_strlit("2");
        reveal_strlit("3");
        reveal_strlit("4");
        reveal_strlit("5");
        reveal_strlit("6");
        reveal_strlit("7");
        reveal_strlit("8");
        reveal_strlit("9");
        reveal_strlit("a");
        reveal_strlit("b");
        reveal_strlit("c");
        reveal_strlit("d");
        reveal_strlit("e");
        reveal_strlit("f");
        assert(r@ =~= seq![hex_digit(n as int)]);
    }
    r
}

/// Appends the JSON string literal for `s` to `out`.
pub fn append_json_str(out: &mut String, s: &str)
    ensures
        final(out)@ == old(out)@ + json_str(s@),
{
    let ghost base = out@;
    out.append("\"");
    proof {
        reveal_strlit("\"");
        assert(out@ =~= base + seq!['"'] + escaped(s@.subrange(0, 0)));
    }
    let n = s.unicode_len();
    let mut i: usize = 0;
    while i < n
        invariant
            i <= n,
            n == s@.len(),
            out@ == base + seq!['"'] + escaped(s@.subrange(0, i as int)),
        decreases n - i,
    {
        let c = s.get_char(i);
        if c == '"' {
            out.append("\\\"");
            proof { reveal_strlit("\\\""); }
        } else if c == '\\' {
            out.append("\\\\");
            proof { reveal_strlit("\\\\"); }
        } else if c == '\n' {
            out.append("\\n");
            proof { reveal_strlit("\\n"); }
        } else if c == '\r' {
            out.append("\\r");
            proof { reveal_strlit("\\r"); }
        } else if c == '\t' {
            out.append("\\t");
            proof { reveal_strlit("\\t"); }
        } else if (c as u32) < 32 {
            out.append("\\u00");
            out.append(hex_digit_str((c as u32) / 16));
            out.append(hex_digit_str((c as u32) % 16));
            proof { reveal_strlit("\\u00"); }
        } else {
            out.append(s.substring_char(i, i + 1));
        }
        proof {
            let pre = s@.subrange(0, i as int);
            let post = s@.subrange(0, (i + 1) as int);
            assert(post.drop_last() =~= pre);
            assert(post.last() == s@[i as int]);
            assert(out@ =~= base + seq!['"'] + escaped(post));
        }
        i = i + 1;
    }
    proof {
        assert(s@.subrange(0, s@.len() as int) =~= s@);
    }
    out.append("\"");
    proof {
        reveal_strlit("\"");
        assert(out@ =~= old(out)@ + json_str(s@));
    }
}

/// Appends an optional object member: nothing when the value is absent.
fn append_opt_field(out: &mut String, prefix: &str, v: &Option<String>)
    ensures
        final(out)@ == old(out)@ + opt_field(prefix@, *v),
{
    match v {
        Some(s) => {
            out.append(prefix);
            append_json_str(out, s.as_str());
            proof {
                assert(out@ =~= old(out)@ + opt_field(prefix@, *v));
            }
        },
        None => {
            proof {
                assert(out@ =~= old(out)@ + opt_field(prefix@, *v));
            }
        },
    }
}

/// The JSON object for the instance information.
pub open spec fn json_of_instance(v: InstanceInfo) -> Seq<char> {
    "{\"url\":"@ + json_str(v.url@) + "}"@
}

/// The JSON object for one social link; absent fields are omitted.
pub open spec fn json_of_social(v: SocialLinkInfo) -> Seq<char> {
    "{\"url\":"@ + json_str(v.url@) + opt_field(",\"label\":"@, v.label) + opt_field(
        ",\"platform_name\":"@,
        v.platform_name,
    ) + opt_field(",\"icon\":"@, v.icon) + opt_field(",\"icon_name\":"@, v.icon_name) + "}"@
}

/// The JSON object for one link; an absent label is omitted.
pub open spec fn json_of_link(v: LinkInfo) -> Seq<char> {
    "{\"url\":"@ + json_str(v.url@) + opt_field(",\"label\":"@, v.label) + "}"@
}

/// The JSON object for one page; an absent name is omitted.
pub open spec fn json_of_page(v: PageInfo) -> Seq<char> {
    "{\"slug\":"@ + json_str(v.slug@) + opt_field(",\"name\":"@, v.name) + "}"@
}

/// The comma-separated body of the tags array.
pub open spec fn json_tags(ts: Seq<String>) -> Seq<char>
    decreases ts,
{
    if ts.len() == 0 {
        Seq::empty()
    } else if ts.len() == 1 {
        json_str(ts.last()@)
    } else {
        json_tags(ts.drop_last()) + seq![','] + json_str(ts.last()@)
    }
}

/// The comma-separated body of the social links array.
pub open spec fn json_socials(vs: Seq<SocialLinkInfo>) -> Seq<char>
    decreases vs,
{
    if vs.len() == 0 {
        Seq::empty()
    } else if vs.len() == 1 {
        json_of_social(vs.last())
    } else {
        json_socials(vs.drop_last()) + seq![','] + json_of_social(vs.last())
    }
}

/// The comma-separated body of the links array.
pub open spec fn json_links(vs: Seq<LinkInfo>) -> Seq<char>
    decreases vs,
{
    if vs.len() == 0 {
        Seq::empty()
    } else if vs.len() == 1 {
        json_of_link(vs.last())
    } else {
        json_links(vs.drop_last()) + seq![','] + json_of_link(vs.last())
    }
}

/// The comma-separated body of the pages array.
pub open spec fn json_pages(vs: Seq<PageInfo>) -> Seq<char>
    decreases vs,
{
    if vs.len() == 0 {
        Seq::empty()
    } else if vs.len() == 1 {
        json_of_page(vs.last())
    } else {
        json_pages(vs.drop_last()) + seq![','] + json_of_page(vs.last())
    }
}

/// The JSON object for a whole profile: the context document a theme sees.
/// Absent optional fields are omitted, so a theme referencing them resolves
/// them to an undefined value, which prints as the empty string.
pub open spec fn json_of_profile(p: ProfileData) -> Seq<char> {
    "{\"instance_info\":"@ + json_of_instance(p.instance_info) + ",\"handle\":"@ + json_str(
        p.handle@,
    ) + opt_field(",\"display_name\":"@, p.display_name) + ",\"tags\":["@ + json_tags(p.tags@)
        + "]"@ + opt_field(",\"bio\":"@, p.bio) + ",\"social_links\":["@ + json_socials(
        p.social_links@,
    ) + "]"@ + ",\"links\":["@ + json_links(p.links@) + "]"@ + ",\"pages\":["@ + json_pages(
        p.pages@,
    ) + "]"@ + "}"@
}

/// Appends the JSON object for the instance information.
fn append_instance(out: &mut String, v: &InstanceInfo)
    ensures
        final(out)@ == old(out)@ + json_of_instance(*v),
{
    out.append("{\"url\":");
    append_json_str(out, v.url.as_str());
    out.append("}");
    proof {
        assert(out@ =~= old(out)@ + json_of_instance(*v));
    }
}

/// Appends the JSON object for one social link.
fn append_social(out: &mut String, v: &SocialLinkInfo)
    ensures
        final(out)@ == old(out)@ + json_of_social(*v),
{
    out.append("{\"url\":");
    append_json_str(out, v.url.as_str());
    append_opt_field(out, ",\"label\":", &v.label);
    append_opt_field(out, ",\"platform_name\":", &v.platform_name);
    append_opt_field(out, ",\"icon\":", &v.icon);
    append_opt_field(out, ",\"icon_name\":", &v.icon_name);
    out.append("}");
    proof {
        assert(out@ =~= old(out)@ + json_of_social(*v));
    }
}

/// Appends the JSON object for one link.
fn append_link(out: &mut String, v: &LinkInfo)
    ensures
        final(out)@ == old(out)@ + json_of_link(*v),
{
    out.append("{\"url\":");
    append_json_str(out, v.url.as_str());
    append_opt_field(out, ",\"label\":", &v.label);
    out.append("}");
    proof {
        assert(out@ =~= old(out)@ + json_of_link(*v));
    }
}

/// Appends the JSON object for one page.
fn append_page(out: &mut String, v: &PageInfo)
    ensures
        final(out)@ == old(out)@ + json_of_page(*v),
{
    out.append("{\"slug\":");
    append_json_str(out, v.slug.as_str());
    append_opt_field(out, ",\"name\":", &v.name);
    out.append("}");
    proof {
        assert(out@ =~= old(out)@ + json_of_page(*v));
    }
}

/// Appends the comma-separated body of the tags array.
fn append_tags(out: &mut String, ts: &Vec<String>)
    ensures
        final(out)@ == old(out)@ + json_tags(ts@),
{
    let ghost base = out@;
    let mut i: usize = 0;
    while i < ts.len()
        invariant
            i <= ts.len(),
            out@ == base + json_tags(ts@.subrange(0, i as int)),
        decreases ts.len() - i,
    {
        if i > 0 {
            out.append(",");
            proof { reveal_strlit(","); }
        }
        append_json_str(out, ts[i].as_str());
        proof {
            let post = ts@.subrange(0, (i + 1) as int);
            assert(post.drop_last() =~= ts@.subrange(0, i as int));
            assert(post.last() == ts@[i as int]);
            assert(out@ =~= base + json_tags(post));
        }
        i = i + 1;
    }
    proof {
        assert(ts@.subrange(0, ts@.len() as int) =~= ts@);
    }
}

/// Appends the comma-separated body of the social links array.
fn append_socials(out: &mut String, vs: &Vec<SocialLinkInfo>)
    ensures
        final(out)@ == old(out)@ + json_socials(vs@),
{
    let ghost base = out@;
    let mut i: usize = 0;
    while i < vs.len()
        invariant
            i <= vs.len(),
            out@ == base + json_socials(vs@.subrange(0, i as int)),
        decreases vs.len() - i,
    {
        if i > 0 {
            out.append(",");
            proof { reveal_strlit(","); }
        }
        append_social(out, &vs[i]);
        proof {
            let post = vs@.subrange(0, (i + 1) as int);
            assert(post.drop_last() =~= vs@.subrange(0, i as int));
            assert(post.last() == vs@[i as int]);
            assert(out@ =~= base + json_socials(post));
        }
        i = i + 1;
    }
    proof {
        assert(vs@.subrange(0, vs@.len() as int) =~= vs@);
    }
}

/// Appends the comma-separated body of the links array.
fn append_links(out: &mut String, vs: &Vec<LinkInfo>)
    ensures
        final(out)@ == old(out)@ + json_links(vs@),
{
    let ghost base = out@;
    let mut i: usize = 0;
    while i < vs.len()
        invariant
            i <= vs.len(),
            out@ == base + json_links(vs@.subrange(0, i as int)),
        decreases vs.len() - i,
    {
        if i > 0 {
            out.append(",");
            proof { reveal_strlit(","); }
        }
        append_link(out, &vs[i]);
        proof {
            let post = vs@.subrange(0, (i + 1) as int);
            assert(post.drop_last() =~= vs@.subrange(0, i as int));
            assert(post.last() == vs@[i as int]);
            assert(out@ =~= base + json_links(post));
        }
        i = i + 1;
    }
    proof {
        assert(vs@.subrange(0, vs@.len() as int) =~= vs@);
    }
}

/// Appends the comma-separated body of the pages array.
fn append_pages(out: &mut String, vs: &Vec<PageInfo>)
    ensures
        final(out)@ == old(out)@ + json_pages(vs@),
{
    let ghost base = out@;
    let mut i: usize = 0;
    while i < vs.len()
        invariant
            i <= vs.len(),
            out@ == base + json_pages(vs@.subrange(0, i as int)),
        decreases vs.len() - i,
    {
        if i > 0 {
            out.append(",");
            proof { reveal_strlit(","); }
        }
        append_page(out, &vs[i]);
        proof {
            let post = vs@.subrange(0, (i + 1) as int);
            assert(post.drop_last() =~= vs@.subrange(0, i as int));
            assert(post.last() == vs@[i as int]);
            assert(out@ =~= base + json_pages(post));
        }
        i = i + 1;
    }
    proof {
        assert(vs@.subrange(0, vs@.len() as int) =~= vs@);
    }
}

/// Encodes a profile as the JSON context document that the template engine
/// binds.
pub fn profile_to_json(p: &ProfileData) -> (r: String)
    ensures
        r@ == json_of_profile(*p),
{
    let mut out = String::new();
    out.append("{\"instance_info\":");
    append_instance(&mut out, &p.instance_info);
    out.append(",\"handle\":");
    append_json_str(&mut out, p.handle.as_str());
    append_opt_field(&mut out, ",\"display_name\":", &p.display_name);
    out.append(",\"tags\":[");
    append_tags(&mut out, &p.tags);
    out.append("]");
    append_opt_field(&mut out, ",\"bio\":", &p.bio);
    out.append(",\"social_links\":[");
    append_socials(&mut out, &p.social_links);
    out.append("]");
    out.append(",\"links\":[");
    append_links(&mut out, &p.links);
    out.append("]");
    out.append(",\"pages\":[");
    append_pages(&mut out, &p.pages);
    out.append("]");
    out.append("}");
    proof {
        assert(out@ =~= json_of_profile(*p));
    }
    out
}

} // verus!
