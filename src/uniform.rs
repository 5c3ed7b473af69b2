//! Typed uniform values and how each is laid out as driver uploads, with the
//! `_len` / `[i]` naming of sequences.
use vstd::prelude::*;

use crate::session::ActiveShader;

verus! {

/// One driver upload. Float data is carried as IEEE-754 single-precision bit
/// patterns; matrices are column-major and never transposed.
#[derive(Clone, Copy, Debug, PartialEq, Eq)]
pub enum UploadValue {
    Float(u32),
    Int(i32),
    Uint(u32),
    Vec3([u32; 3]),
    Vec4([u32; 4]),
    Mat3([u32; 9]),
    Mat4([u32; 16]),
}

/// An upload addressed to a uniform by name.
#[derive(Clone, Debug)]
pub struct Upload {
    pub name: String,
    pub value: UploadValue,
}

/// The (name, value) pairs of a list of uploads.
pub open spec fn upload_views(ups: Seq<Upload>) -> Seq<(Seq<char>, UploadValue)> {
    ups.map_values(|u: Upload| (u.name@, u.value))
}

/// A single-precision float, as its IEEE-754 bit pattern.
#[derive(Clone, Copy, Debug, PartialEq, Eq)]
pub struct FloatBits(pub u32);

/// A three-component float vector, as the bit patterns of x, y and z.
#[derive(Clone, Copy, Debug, PartialEq, Eq)]
pub struct Vec3Bits {
    pub x: u32,
    pub y: u32,
    pub z: u32,
}

/// A four-component float vector, as the bit patterns of its components.
#[derive(Clone, Copy, Debug, PartialEq, Eq)]
pub struct Vec4Bits(pub [u32; 4]);

/// A 3x3 float matrix, as the bit patterns of its entries in column-major order.
#[derive(Clone, Copy, Debug, PartialEq, Eq)]
pub struct Mat3Bits(pub [u32; 9]);

/// A 4x4 float matrix, as the bit patterns of its entries in column-major order.
#[derive(Clone, Copy, Debug, PartialEq, Eq)]
pub struct Mat4Bits(pub [u32; 16]);

/// The character of a decimal digit.
pub open spec fn digit_char(d: nat) -> char {
    if d == 0 { '0' }
    else if d == 1 { '1' }
    else if d == 2 { '2' }
    else if d == 3 { '3' }
    else if d == 4 { '4' }
    else if d == 5 { '5' }
    else if d == 6 { '6' }
    else if d == 7 { '7' }
    else if d == 8 { '8' }
    else { '9' }
}

/// The decimal digits of `n`, without leading zeros.
pub open spec fn decimal(n: nat) -> Seq<char>
    decreases n,
{
    if n < 10 {
        seq![digit_char(n)]
    } else {
        decimal(n / 10).push(digit_char(n % 10))
    }
}

/// The name of the companion length uniform of the array uniform `name`.
pub open spec fn length_name(name: Seq<char>) -> Seq<char> {
    name + seq!['_', 'l', 'e', 'n']
}

/// The name of element `i` of the array uniform `name`.
pub open spec fn element_name(name: Seq<char>, i: nat) -> Seq<char> {
    name + seq!['['] + decimal(i) + seq![']']
}

fn digit_str(d: usize) -> (r: &'static str)
    requires
        d < 10,
    ensures
        r@ == seq![digit_char(d as nat)],
{
    proof {
        reveal_strlit("0");
        reveal_strlit("1");
        reveal_strlit("2");
        reveal_strlit("3");
        reveal_strlit("4");
        reveal_strlit("5");
        reveal_strlit("6");
        reveal_strlit("7");
        reveal_strlit("8");
        reveal_strlit("9");
    }
    if d == 0 { "0" }
    else if d == 1 { "1" }
    else if d == 2 { "2" }
    else if d == 3 { "3" }
    else if d == 4 { "4" }
    else if d == 5 { "5" }
    else if d == 6 { "6" }
    else if d == 7 { "7" }
    else if d == 8 { "8" }
    else { "9" }
}

fn push_decimal(out: &mut String, n: usize)
    ensures
        final(out)@ == old(out)@ + decimal(n as nat),
    decreases n,
{
    if n >= 10 {
        push_decimal(out, n / 10);
    }
    out.append(digit_str(n % 10));
    assert(decimal(n as nat) == if n < 10 { seq![digit_char(n as nat)] } else {
        decimal((n / 10) as nat).push(digit_char((n % 10) as nat))
    });
}

/// The name of the companion length uniform: `name` followed by `_len`.
pub fn len_uniform_name(name: &str) -> (r: String)
    ensures
        r@ == length_name(name@),
{
    proof {
        reveal_strlit("_len");
    }
    let mut out = String::from_str(name);
    out.append("_len");
    out
}

/// The name of an element uniform: `name`, `[`, the decimal index, `]`.
pub fn element_uniform_name(name: &str, i: usize) -> (r: String)
    ensures
        r@ == element_name(name@, i as nat),
{
    proof {
        reveal_strlit("[");
        reveal_strlit("]");
    }
    let mut out = String::from_str(name);
    out.append("[");
    push_decimal(&mut out, i);
    out.append("]");
    assert(out@ =~= element_name(name@, i as nat));
    out
}

/// A value that can be bound to a uniform of a program.
pub trait BindUniform {
    /// The uploads that binding this value to `name` queues, in order.
    spec fn uploads(&self, name: Seq<char>) -> Seq<(Seq<char>, UploadValue)>;

    /// The number of texture units that binding this value hands out.
    spec fn slots(&self) -> nat;

    /// Queues the uploads of this value for `name` on `session`, handing out
    /// `slots()` texture units.
    fn bind_uniform(&self, session: &mut ActiveShader, name: &str)
        requires
            old(session).textures() + self.slots() <= u32::MAX,
        ensures
            final(session).pending() == old(session).pending() + self.uploads(name@),
            final(session).textures() == old(session).textures() + self.slots(),
            final(session).program() == old(session).program(),
    ;
}

impl BindUniform for i32 {
    open spec fn uploads(&self, name: Seq<char>) -> Seq<(Seq<char>, UploadValue)> {
        seq![(name, UploadValue::Int(*self))]
    }

    open spec fn slots(&self) -> nat {
        0
    }

    fn bind_uniform(&self, session: &mut ActiveShader, name: &str) {
        session.queue_upload(String::from_str(name), UploadValue::Int(*self));
    }
}

impl BindUniform for u32 {
    open spec fn uploads(&self, name: Seq<char>) -> Seq<(Seq<char>, UploadValue)> {
        seq![(name, UploadValue::Uint(*self))]
    }

    open spec fn slots(&self) -> nat {
        0
    }

    fn bind_uniform(&self, session: &mut ActiveShader, name: &str) {
        session.queue_upload(String::from_str(name), UploadValue::Uint(*self));
    }
}

impl BindUniform for FloatBits {
    open spec fn uploads(&self, name: Seq<char>) -> Seq<(Seq<char>, UploadValue)> {
        seq![(name, UploadValue::Float(self.0))]
    }

    open spec fn slots(&self) -> nat {
        0
    }

    fn bind_uniform(&self, session: &mut ActiveShader, name: &str) {
        session.queue_upload(String::from_str(name), UploadValue::Float(self.0));
    }
}

impl BindUniform for Vec3Bits {
    open spec fn uploads(&self, name: Seq<char>) -> Seq<(Seq<char>, UploadValue)> {
        seq![(name, UploadValue::Vec3([self.x, self.y, self.z]))]
    }

    open spec fn slots(&self) -> nat {
        0
    }

    fn bind_uniform(&self, session: &mut ActiveShader, name: &str) {
        session.queue_upload(String::from_str(name), UploadValue::Vec3([self.x, self.y, self.z]));
    }
}

impl BindUniform for Vec4Bits {
    open spec fn uploads(&self, name: Seq<char>) -> Seq<(Seq<char>, UploadValue)> {
        seq![(name, UploadValue::Vec4(self.0))]
    }

    open spec fn slots(&self) -> nat {
        0
    }

    fn bind_uniform(&self, session: &mut ActiveShader, name: &str) {
        session.queue_upload(String::from_str(name), UploadValue::Vec4(self.0));
    }
}

impl BindUniform for Mat3Bits {
    open spec fn uploads(&self, name: Seq<char>) -> Seq<(Seq<char>, UploadValue)> {
        seq![(name, UploadValue::Mat3(self.0))]
    }

    open spec fn slots(&self) -> nat {
        0
    }

    fn bind_uniform(&self, session: &mut ActiveShader, name: &str) {
        session.queue_upload(String::from_str(name), UploadValue::Mat3(self.0));
    }
}

impl BindUniform for Mat4Bits {
    open spec fn uploads(&self, name: Seq<char>) -> Seq<(Seq<char>, UploadValue)> {
        seq![(name, UploadValue::Mat4(self.0))]
    }

    open spec fn slots(&self) -> nat {
        0
    }

    fn bind_uniform(&self, session: &mut ActiveShader, name: &str) {
        session.queue_upload(String::from_str(name), UploadValue::Mat4(self.0));
    }
}

impl<T: BindUniform> BindUniform for &T {
    open spec fn uploads(&self, name: Seq<char>) -> Seq<(Seq<char>, UploadValue)> {
        (**self).uploads(name)
    }

    open spec fn slots(&self) -> nat {
        (**self).slots()
    }

    fn bind_uniform(&self, session: &mut ActiveShader, name: &str) {
        (**self).bind_uniform(session, name);
    }
}

/// The uploads of the elements of a sequence bound to `name`, element `i`
/// under `element_name(name, i)`, in index order.
pub open spec fn element_uploads<T: BindUniform>(items: Seq<T>, name: Seq<char>) -> Seq<(Seq<char>, UploadValue)>
    decreases items.len(),
{
    if items.len() == 0 {
        Seq::empty()
    } else {
        element_uploads(items.drop_last(), name) + items.last().uploads(
            element_name(name, (items.len() - 1) as nat),
        )
    }
}

/// The texture units that binding the elements of a sequence hands out.
pub open spec fn element_slots<T: BindUniform>(items: Seq<T>) -> nat
    decreases items.len(),
{
    if items.len() == 0 {
        0
    } else {
        element_slots(items.drop_last()) + items.last().slots()
    }
}

proof fn element_slots_prefix<T: BindUniform>(items: Seq<T>, i: int)
    requires
        0 <= i <= items.len(),
    ensures
        element_slots(items.subrange(0, i)) <= element_slots(items),
    decreases items.len(),
{
    if i == items.len() {
        assert(items.subrange(0, i) =~= items);
    } else {
        let prefix = items.drop_last();
        element_slots_prefix(prefix, i);
        assert(prefix.subrange(0, i) =~= items.subrange(0, i));
    }
}

impl<T: BindUniform> BindUniform for Vec<T> {
    /// The element count under `name_len`, then each element under `name[i]`.
    open spec fn uploads(&self, name: Seq<char>) -> Seq<(Seq<char>, UploadValue)> {
        seq![(length_name(name), UploadValue::Int(self@.len() as i32))] + element_uploads(self@, name)
    }

    /// The units its elements hand out.
    open spec fn slots(&self) -> nat {
        element_slots(self@)
    }

    fn bind_uniform(&self, session: &mut ActiveShader, name: &str) {
        let count = self.len() as i32;
        session.bind_uniform(len_uniform_name(name).as_str(), &count);
        let ghost start = session.pending();
        let ghost first = session.textures();
        let mut i: usize = 0;
        while i < self.len()
            invariant
                i <= self@.len(),
                first == old(session).textures(),
                first + element_slots(self@) <= u32::MAX,
                session.pending() == start + element_uploads(self@.subrange(0, i as int), name@),
                session.textures() == first + element_slots(self@.subrange(0, i as int)),
                session.program() == old(session).program(),
            decreases self.len() - i,
        {
            let element_name = element_uniform_name(name, i);
            proof {
                let next = self@.subrange(0, i + 1);
                assert(next.drop_last() =~= self@.subrange(0, i as int));
                assert(next.last() == self@[i as int]);
                element_slots_prefix(self@, i + 1);
            }
            session.bind_uniform(element_name.as_str(), &self[i]);
            i = i + 1;
        }
        assert(self@.subrange(0, self@.len() as int) =~= self@);
    }
}

/// Every value of `items` uploads exactly once, under the name it is bound to.
pub open spec fn single_uploads<T: BindUniform>(items: Seq<T>) -> bool {
    forall|i: int, n: Seq<char>|
        0 <= i < items.len() ==> #[trigger] items[i].uploads(n).len() == 1 && items[i].uploads(n)[0].0 == n
}

proof fn element_upload_names<T: BindUniform>(items: Seq<T>, name: Seq<char>)
    requires
        single_uploads(items),
    ensures
        element_uploads(items, name).len() == items.len(),
        forall|k: int|
            0 <= k < items.len() ==> #[trigger] element_uploads(items, name)[k].0 == element_name(name, k as nat),
    decreases items.len(),
{
    if items.len() > 0 {
        let prefix = items.drop_last();
        assert forall|i: int, n: Seq<char>| 0 <= i < prefix.len() implies #[trigger] prefix[i].uploads(n).len() == 1
            && prefix[i].uploads(n)[0].0 == n by {
            assert(prefix[i] == items[i]);
        }
        element_upload_names(prefix, name);
        let last = items.last().uploads(element_name(name, (items.len() - 1) as nat));
        assert(items.last() == items[items.len() - 1]);
        assert(last.len() == 1);
    }
}

proof fn decimal_shape(n: nat)
    ensures
        decimal(n).len() >= 1,
        n < 10 <==> decimal(n).len() == 1,
        forall|i: int| 0 <= i < decimal(n).len() ==> #[trigger] decimal(n)[i] != ']',
    decreases n,
{
    if n >= 10 {
        decimal_shape(n / 10);
        assert forall|i: int| 0 <= i < decimal(n).len() implies #[trigger] decimal(n)[i] != ']' by {
            if i < decimal(n / 10).len() {
                assert(decimal(n)[i] == decimal(n / 10)[i]);
            }
        }
    }
}

proof fn digit_char_injective(a: nat, b: nat)
    requires
        a < 10,
        b < 10,
        digit_char(a) == digit_char(b),
    ensures
        a == b,
{
}

proof fn decimal_injective(j: nat, k: nat)
    requires
        decimal(j) == decimal(k),
    ensures
        j == k,
    decreases j,
{
    decimal_shape(j);
    decimal_shape(k);
    if j >= 10 && k >= 10 {
        assert(decimal(j).drop_last() =~= decimal(j / 10));
        assert(decimal(k).drop_last() =~= decimal(k / 10));
        decimal_injective(j / 10, k / 10);
        assert(decimal(j).last() == digit_char(j % 10));
        assert(decimal(k).last() == digit_char(k % 10));
        digit_char_injective(j % 10, k % 10);
        assert(j == 10 * (j / 10) + j % 10);
        assert(k == 10 * (k / 10) + k % 10);
    } else if j < 10 && k < 10 {
        assert(decimal(j)[0] == digit_char(j));
        assert(decimal(k)[0] == digit_char(k));
        digit_char_injective(j, k);
    }
}

proof fn element_names_distinct(name: Seq<char>, j: nat, k: nat)
    requires
        j != k,
    ensures
        element_name(name, j) != element_name(name, k),
        element_name(name, j) != length_name(name),
{
    let a = element_name(name, j);
    let b = element_name(name, k);
    let p = name.len() as int + 1;
    decimal_shape(j);
    decimal_shape(k);
    assert(a[name.len() as int] == '[');
    if a == b {
        assert(a.len() == b.len());
        assert(a.subrange(p, a.len() - 1) =~= decimal(j));
        assert(b.subrange(p, b.len() - 1) =~= decimal(k));
        decimal_injective(j, k);
    }
}

/// Binding a sequence of `n` values that each upload once makes exactly one
/// length upload, named `name_len`, followed by `n` element uploads named
/// `name[0]` through `name[n-1]`, in order; no two of these names are equal.
pub proof fn sequence_upload_names<T: BindUniform>(items: Vec<T>, name: Seq<char>)
    requires
        single_uploads(items@),
    ensures
        items.uploads(name).len() == items@.len() + 1,
        items.uploads(name)[0] == (length_name(name), UploadValue::Int(items@.len() as i32)),
        forall|k: int|
            0 <= k < items@.len() ==> #[trigger] items.uploads(name)[k + 1].0 == element_name(name, k as nat),
        forall|j: int, k: int|
            0 <= j < k < items@.len() + 1 ==> #[trigger] items.uploads(name)[j].0 != #[trigger] items.uploads(
                name,
            )[k].0,
{
    element_upload_names(items@, name);
    assert forall|k: int| 0 <= k < items@.len() implies #[trigger] items.uploads(name)[k + 1].0 == element_name(
        name,
        k as nat,
    ) by {
        assert(items.uploads(name)[k + 1] == element_uploads(items@, name)[k]);
    }
    assert forall|j: int, k: int| 0 <= j < k < items@.len() + 1 implies #[trigger] items.uploads(name)[j].0
        != #[trigger] items.uploads(name)[k].0 by {
        assert(items.uploads(name)[k].0 == element_name(name, (k - 1) as nat));
        if j == 0 {
            element_names_distinct(name, (k - 1) as nat, (k - 1) as nat + 1);
        } else {
            assert(items.uploads(name)[j].0 == element_name(name, (j - 1) as nat));
            element_names_distinct(name, (j - 1) as nat, (k - 1) as nat);
        }
    }
}

/// A matrix is uploaded as one mat3 upload carrying its nine entries in the
/// order it holds them (column-major), untransposed.
pub proof fn mat3_upload_keeps_layout(m: Mat3Bits, name: Seq<char>)
    ensures
        m.uploads(name).len() == 1,
        m.uploads(name)[0].0 == name,
        m.uploads(name)[0].1 matches UploadValue::Mat3(data) && data@ == m.0@,
{
}

/// A matrix is uploaded as one mat4 upload carrying its sixteen entries in the
/// order it holds them (column-major), untransposed.
pub proof fn mat4_upload_keeps_layout(m: Mat4Bits, name: Seq<char>)
    ensures
        m.uploads(name).len() == 1,
        m.uploads(name)[0].0 == name,
        m.uploads(name)[0].1 matches UploadValue::Mat4(data) && data@ == m.0@,
{
}

} // verus!
