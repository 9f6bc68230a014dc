//! The binding rule set.
//!
//! The interface generator surfaces typed declarations only for upstream
//! identifiers under the library's reserved namespace prefix, marks the four
//! allocator-owned structural shapes as non-duplicable (copying one would
//! alias memory tracked by the upstream allocator), exposes enum-like
//! groupings without a redundant container-name prefix on their members,
//! and normalizes the platform-width size type to `usize` — the same width
//! the sentinel constants are declared with. Identifiers are handled as
//! bytes.

use vstd::prelude::*;

verus! {

/// The upstream library's reserved namespace prefix, `plum_`.
pub open spec fn namespace_prefix() -> Seq<u8> {
    seq!['p' as u8, 'l' as u8, 'u' as u8, 'm' as u8, '_' as u8]
}

/// `p` is a prefix of `s`.
pub open spec fn is_prefix_of(p: Seq<u8>, s: Seq<u8>) -> bool {
    p.len() <= s.len() && s.subrange(0, p.len() as int) == p
}

/// The buffer shape, `plum_buffer`.
pub open spec fn buffer_shape_name() -> Seq<u8> {
    namespace_prefix() + seq![
        'b' as u8, 'u' as u8, 'f' as u8, 'f' as u8, 'e' as u8, 'r' as u8,
    ]
}

/// The streaming-callback descriptor shape, `plum_callback`.
pub open spec fn callback_shape_name() -> Seq<u8> {
    namespace_prefix() + seq![
        'c' as u8, 'a' as u8, 'l' as u8, 'l' as u8, 'b' as u8, 'a' as u8, 'c' as u8, 'k' as u8,
    ]
}

/// The metadata shape, `plum_metadata`.
pub open spec fn metadata_shape_name() -> Seq<u8> {
    namespace_prefix() + seq![
        'm' as u8, 'e' as u8, 't' as u8, 'a' as u8, 'd' as u8, 'a' as u8, 't' as u8, 'a' as u8,
    ]
}

/// The image handle shape, `plum_image`.
pub open spec fn image_shape_name() -> Seq<u8> {
    namespace_prefix() + seq![
        'i' as u8, 'm' as u8, 'a' as u8, 'g' as u8, 'e' as u8,
    ]
}

/// The copy-restriction set: exactly the four allocator-owned shapes.
pub open spec fn spec_is_copy_restricted(name: Seq<u8>) -> bool {
    ||| name == buffer_shape_name()
    ||| name == callback_shape_name()
    ||| name == metadata_shape_name()
    ||| name == image_shape_name()
}

/// Two byte strings hold the same bytes.
pub fn bytes_eq(a: &[u8], b: &[u8]) -> (r: bool)
    ensures
        r == (a@ == b@),
{
    if a.len() != b.len() {
        return false;
    }
    let mut i: usize = 0;
    while i < a.len()
        invariant
            0 <= i <= a@.len(),
            a@.len() == b@.len(),
            forall|j: int| 0 <= j < i ==> a@[j] == b@[j],
        decreases a@.len() - i,
    {
        if a[i] != b[i] {
            return false;
        }
        i += 1;
    }
    proof {
        assert(a@ =~= b@);
    }
    true
}

/// `p` leads `s`.
pub fn has_prefix(s: &[u8], p: &[u8]) -> (r: bool)
    ensures
        r == is_prefix_of(p@, s@),
{
    if p.len() > s.len() {
        return false;
    }
    let mut i: usize = 0;
    while i < p.len()
        invariant
            0 <= i <= p@.len(),
            p@.len() <= s@.len(),
            forall|j: int| 0 <= j < i ==> s@[j] == p@[j],
        decreases p@.len() - i,
    {
        if s[i] != p[i] {
            proof {
                assert(s@.subrange(0, p@.len() as int)[i as int] == s@[i as int]);
            }
            return false;
        }
        i += 1;
    }
    proof {
        assert(s@.subrange(0, p@.len() as int) =~= p@);
    }
    true
}

/// The reserved prefix, as bytes.
pub fn namespace_prefix_bytes() -> (p: Vec<u8>)
    ensures
        p@ == namespace_prefix(),
{
    let mut p: Vec<u8> = Vec::new();
    p.push('p' as u8);
    p.push('l' as u8);
    p.push('u' as u8);
    p.push('m' as u8);
    p.push('_' as u8);
    proof {
        assert(p@ =~= namespace_prefix());
    }
    p
}

/// The allow-pattern: an upstream identifier is surfaced by the interface
/// generator exactly when it carries the reserved namespace prefix.
pub fn is_surfaced(name: &[u8]) -> (r: bool)
    ensures
        r == is_prefix_of(namespace_prefix(), name@),
{
    let prefix = namespace_prefix_bytes();
    has_prefix(name, prefix.as_slice())
}

/// One allocator-owned shape name, as bytes.
pub fn shape_name_bytes(kind: RestrictedShape) -> (n: Vec<u8>)
    ensures
        n@ == spec_shape_name(kind),
{
    let mut n = namespace_prefix_bytes();
    match kind {
        RestrictedShape::Buffer => {
            n.push('b' as u8);
            n.push('u' as u8);
            n.push('f' as u8);
            n.push('f' as u8);
            n.push('e' as u8);
            n.push('r' as u8);
        },
        RestrictedShape::Callback => {
            n.push('c' as u8);
            n.push('a' as u8);
            n.push('l' as u8);
            n.push('l' as u8);
            n.push('b' as u8);
            n.push('a' as u8);
            n.push('c' as u8);
            n.push('k' as u8);
        },
        RestrictedShape::Metadata => {
            n.push('m' as u8);
            n.push('e' as u8);
            n.push('t' as u8);
            n.push('a' as u8);
            n.push('d' as u8);
            n.push('a' as u8);
            n.push('t' as u8);
            n.push('a' as u8);
        },
        RestrictedShape::Image => {
            n.push('i' as u8);
            n.push('m' as u8);
            n.push('a' as u8);
            n.push('g' as u8);
            n.push('e' as u8);
        },
    }
    proof {
        assert(n@ =~= spec_shape_name(kind));
    }
    n
}

/// The four structural shapes whose lifetimes are governed by the upstream
/// allocator's bookkeeping.
#[derive(Clone, Copy, Debug, PartialEq, Eq, Structural)]
pub enum RestrictedShape {
    Buffer,
    Callback,
    Metadata,
    Image,
}

/// The name of one allocator-owned shape.
pub open spec fn spec_shape_name(kind: RestrictedShape) -> Seq<u8> {
    match kind {
        RestrictedShape::Buffer => buffer_shape_name(),
        RestrictedShape::Callback => callback_shape_name(),
        RestrictedShape::Metadata => metadata_shape_name(),
        RestrictedShape::Image => image_shape_name(),
    }
}

/// The copy-restriction rule: a type is exposed as non-duplicable exactly
/// when it is one of the four allocator-owned shapes.
pub fn is_copy_restricted(name: &[u8]) -> (r: bool)
    ensures
        r == spec_is_copy_restricted(name@),
{
    let buffer = shape_name_bytes(RestrictedShape::Buffer);
    if bytes_eq(name, buffer.as_slice()) {
        return true;
    }
    let callback = shape_name_bytes(RestrictedShape::Callback);
    if bytes_eq(name, callback.as_slice()) {
        return true;
    }
    let metadata = shape_name_bytes(RestrictedShape::Metadata);
    if bytes_eq(name, metadata.as_slice()) {
        return true;
    }
    let image = shape_name_bytes(RestrictedShape::Image);
    bytes_eq(name, image.as_slice())
}

/// The copy-restricted shapes are pairwise distinct, and every one of them
/// is itself surfaced: the restriction refines the allow-pattern rather
/// than reaching outside it.
pub proof fn lemma_copy_restriction_well_formed()
    ensures
        buffer_shape_name() != callback_shape_name(),
        buffer_shape_name() != metadata_shape_name(),
        buffer_shape_name() != image_shape_name(),
        callback_shape_name() != metadata_shape_name(),
        callback_shape_name() != image_shape_name(),
        metadata_shape_name() != image_shape_name(),
        forall|name: Seq<u8>|
            spec_is_copy_restricted(name) ==> is_prefix_of(namespace_prefix(), name),
{
    assert(buffer_shape_name().len() == 11);
    assert(callback_shape_name().len() == 13);
    assert(metadata_shape_name().len() == 13);
    assert(image_shape_name().len() == 10);
    assert(callback_shape_name()[5] != metadata_shape_name()[5]);
    assert forall|name: Seq<u8>| spec_is_copy_restricted(name) implies is_prefix_of(
        namespace_prefix(),
        name,
    ) by {
        assert(name.subrange(0, 5) =~= namespace_prefix());
    }
}

/// The name under which an enum-like grouping's member is surfaced. The
/// generator can join the container's name in front of the member's own
/// name; the rule set switches that off, so members keep their bare names.
pub fn member_binding_name(container: &[u8], member: &[u8], prepend_container: bool) -> (r: Vec<u8>)
    requires
        container@.len() + 1 + member@.len() <= usize::MAX,
    ensures
        prepend_container ==> r@ == container@ + seq!['_' as u8] + member@,
        !prepend_container ==> r@ == member@,
{
    let mut r: Vec<u8> = Vec::new();
    if prepend_container {
        let mut i: usize = 0;
        while i < container.len()
            invariant
                0 <= i <= container@.len(),
                r@ =~= container@.subrange(0, i as int),
            decreases container@.len() - i,
        {
            r.push(container[i]);
            i += 1;
        }
        r.push('_' as u8);
    }
    let mut j: usize = 0;
    while j < member.len()
        invariant
            0 <= j <= member@.len(),
            prepend_container ==> r@ =~= container@ + seq!['_' as u8] + member@.subrange(
                0,
                j as int,
            ),
            !prepend_container ==> r@ =~= member@.subrange(0, j as int),
        decreases member@.len() - j,
    {
        r.push(member[j]);
        j += 1;
    }
    proof {
        assert(member@.subrange(0, member@.len() as int) =~= member@);
    }
    r
}

} // verus!
