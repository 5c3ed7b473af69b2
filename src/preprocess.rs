//! Assembly of the final GLSL text of a stage: platform header, the shared
//! struct definitions, then the caller's source.
use vstd::prelude::*;

verus! {

/// The target the program is compiled for; it decides the version header.
#[derive(Clone, Copy, Debug, PartialEq, Eq, Structural)]
pub enum Platform {
    /// WebGL 2 in a browser.
    Web,
    /// A desktop OpenGL core profile.
    Desktop,
}

/// A type whose values can be handed to shaders declares its GLSL struct here.
pub trait ShaderTypeDef {
    /// The GLSL `struct` declaration of this type.
    const TYPE_DEF: &'static str;
}

/// The version (and precision) directives placed first in every stage.
pub open spec fn header_text(p: Platform) -> Seq<char> {
    match p {
        Platform::Web => "#version 300 es\nprecision highp float;"@,
        Platform::Desktop => "#version 330 core"@,
    }
}

/// The definitions, separated by single newlines.
pub open spec fn joined(defs: Seq<Seq<char>>) -> Seq<char>
    decreases defs.len(),
{
    if defs.len() == 0 {
        Seq::empty()
    } else if defs.len() == 1 {
        defs[0]
    } else {
        joined(defs.drop_last()) + seq!['\n'] + defs.last()
    }
}

/// The views of a list of string slices.
pub open spec fn views(defs: Seq<&str>) -> Seq<Seq<char>> {
    defs.map_values(|s: &str| s@)
}

/// Header, newline, definitions, newline, source.
pub open spec fn assembled(header: Seq<char>, defs: Seq<char>, source: Seq<char>) -> Seq<char> {
    header + seq!['\n'] + defs + seq!['\n'] + source
}

/// The header for `p`.
pub fn platform_header(p: Platform) -> (r: &'static str)
    ensures
        r@ == header_text(p),
{
    match p {
        Platform::Web => "#version 300 es\nprecision highp float;",
        Platform::Desktop => "#version 330 core",
    }
}

/// Joins the type definitions with newlines, in the order given.
pub fn join_type_defs(defs: &Vec<&str>) -> (r: String)
    ensures
        r@ == joined(views(defs@)),
{
    let mut out = String::new();
    let mut i: usize = 0;
    while i < defs.len()
        invariant
            i <= defs.len(),
            out@ == joined(views(defs@.subrange(0, i as int))),
        decreases defs.len() - i,
    {
        let ghost prefix = defs@.subrange(0, i as int);
        let ghost next = defs@.subrange(0, i + 1);
        assert(views(next).drop_last() =~= views(prefix));
        assert(views(next).len() == i + 1);
        assert(views(next).last() == defs@[i as int]@);
        let item: &str = defs[i];
        if i > 0 {
            proof {
                reveal_strlit("\n");
            }
            out.append("\n");
            out.append(item);
            assert(out@ =~= joined(views(prefix)) + seq!['\n'] + item@);
        } else {
            out.append(item);
            assert(views(prefix).len() == 0);
            assert(out@ =~= item@);
        }
        assert(out@ =~= joined(views(next)));
        i = i + 1;
    }
    assert(defs@.subrange(0, defs.len() as int) =~= defs@);
    out
}

/// The complete text of one stage for `platform`: its header, the newline-joined
/// type definitions, and `source` unchanged.
pub fn assemble_source(platform: Platform, defs: &Vec<&str>, source: &str) -> (r: String)
    ensures
        r@ == assembled(header_text(platform), joined(views(defs@)), source@),
{
    proof {
        reveal_strlit("\n");
    }
    let mut out = String::from_str(platform_header(platform));
    out.append("\n");
    let joined_defs = join_type_defs(defs);
    out.append(joined_defs.as_str());
    out.append("\n");
    out.append(source);
    assert(out@ =~= assembled(header_text(platform), joined(views(defs@)), source@));
    out
}

/// The assembled text of any stage holds, in order: the platform header, a
/// newline, all type definitions joined by newlines, a newline, and the
/// caller's source unchanged.
pub proof fn assembled_parts_in_order(p: Platform, defs: Seq<Seq<char>>, source: Seq<char>)
    ensures
        ({
            let text = assembled(header_text(p), joined(defs), source);
            let h = header_text(p).len() as int;
            let d = joined(defs).len() as int;
            &&& text.len() == h + 1 + d + 1 + source.len()
            &&& text.subrange(0, h) == header_text(p)
            &&& text[h] == '\n'
            &&& text.subrange(h + 1, h + 1 + d) == joined(defs)
            &&& text[h + 1 + d] == '\n'
            &&& text.subrange(h + 2 + d, text.len() as int) == source
        }),
{
    let text = assembled(header_text(p), joined(defs), source);
    let h = header_text(p).len() as int;
    let d = joined(defs).len() as int;
    assert(text.subrange(0, h) =~= header_text(p));
    assert(text.subrange(h + 1, h + 1 + d) =~= joined(defs));
    assert(text.subrange(h + 2 + d, text.len() as int) =~= source);
}

} // verus!
