//! Image elements: fixed-channel samples such as pixels and voxels.

use vstd::prelude::*;

verus! {

/// A numeric scalar that can back a single channel of an image element.
///
/// A component is copied by value, has a zero, and has a least and a greatest
/// value.
pub trait Component: Copy + Sized {
    /// The zero of the type.
    spec fn spec_zero() -> Self;

    /// The least value of the type.
    spec fn spec_min_value() -> Self;

    /// The greatest value of the type.
    spec fn spec_max_value() -> Self;

    /// The zero of the type.
    fn zero() -> (z: Self)
        ensures
            z == Self::spec_zero(),
    ;

    /// The least value of the type.
    fn min_value() -> (m: Self)
        ensures
            m == Self::spec_min_value(),
    ;

    /// The greatest value of the type.
    fn max_value() -> (m: Self)
        ensures
            m == Self::spec_max_value(),
    ;
}

impl Component for u8 {
    open spec fn spec_zero() -> u8 {
        0u8
    }

    open spec fn spec_min_value() -> u8 {
        u8::MIN
    }

    open spec fn spec_max_value() -> u8 {
        u8::MAX
    }

    fn zero() -> u8 {
        0u8
    }

    fn min_value() -> u8 {
        u8::MIN
    }

    fn max_value() -> u8 {
        u8::MAX
    }
}

impl Component for u16 {
    open spec fn spec_zero() -> u16 {
        0u16
    }

    open spec fn spec_min_value() -> u16 {
        u16::MIN
    }

    open spec fn spec_max_value() -> u16 {
        u16::MAX
    }

    fn zero() -> u16 {
        0u16
    }

    fn min_value() -> u16 {
        u16::MIN
    }

    fn max_value() -> u16 {
        u16::MAX
    }
}

impl Component for u32 {
    open spec fn spec_zero() -> u32 {
        0u32
    }

    open spec fn spec_min_value() -> u32 {
        u32::MIN
    }

    open spec fn spec_max_value() -> u32 {
        u32::MAX
    }

    fn zero() -> u32 {
        0u32
    }

    fn min_value() -> u32 {
        u32::MIN
    }

    fn max_value() -> u32 {
        u32::MAX
    }
}

impl Component for u64 {
    open spec fn spec_zero() -> u64 {
        0u64
    }

    open spec fn spec_min_value() -> u64 {
        u64::MIN
    }

    open spec fn spec_max_value() -> u64 {
        u64::MAX
    }

    fn zero() -> u64 {
        0u64
    }

    fn min_value() -> u64 {
        u64::MIN
    }

    fn max_value() -> u64 {
        u64::MAX
    }
}

impl Component for usize {
    open spec fn spec_zero() -> usize {
        0usize
    }

    open spec fn spec_min_value() -> usize {
        usize::MIN
    }

    open spec fn spec_max_value() -> usize {
        usize::MAX
    }

    fn zero() -> usize {
        0usize
    }

    fn min_value() -> usize {
        usize::MIN
    }

    fn max_value() -> usize {
        usize::MAX
    }
}

impl Component for i8 {
    open spec fn spec_zero() -> i8 {
        0i8
    }

    open spec fn spec_min_value() -> i8 {
        i8::MIN
    }

    open spec fn spec_max_value() -> i8 {
        i8::MAX
    }

    fn zero() -> i8 {
        0i8
    }

    fn min_value() -> i8 {
        i8::MIN
    }

    fn max_value() -> i8 {
        i8::MAX
    }
}

impl Component for i16 {
    open spec fn spec_zero() -> i16 {
        0i16
    }

    open spec fn spec_min_value() -> i16 {
        i16::MIN
    }

    open spec fn spec_max_value() -> i16 {
        i16::MAX
    }

    fn zero() -> i16 {
        0i16
    }

    fn min_value() -> i16 {
        i16::MIN
    }

    fn max_value() -> i16 {
        i16::MAX
    }
}

impl Component for i32 {
    open spec fn spec_zero() -> i32 {
        0i32
    }

    open spec fn spec_min_value() -> i32 {
        i32::MIN
    }

    open spec fn spec_max_value() -> i32 {
        i32::MAX
    }

    fn zero() -> i32 {
        0i32
    }

    fn min_value() -> i32 {
        i32::MIN
    }

    fn max_value() -> i32 {
        i32::MAX
    }
}

impl Component for i64 {
    open spec fn spec_zero() -> i64 {
        0i64
    }

    open spec fn spec_min_value() -> i64 {
        i64::MIN
    }

    open spec fn spec_max_value() -> i64 {
        i64::MAX
    }

    fn zero() -> i64 {
        0i64
    }

    fn min_value() -> i64 {
        i64::MIN
    }

    fn max_value() -> i64 {
        i64::MAX
    }
}

impl Component for isize {
    open spec fn spec_zero() -> isize {
        0isize
    }

    open spec fn spec_min_value() -> isize {
        isize::MIN
    }

    open spec fn spec_max_value() -> isize {
        isize::MAX
    }

    fn zero() -> isize {
        0isize
    }

    fn min_value() -> isize {
        isize::MIN
    }

    fn max_value() -> isize {
        isize::MAX
    }
}

/// One sample of an image: a pixel of a 2D image, a voxel of a 3D one.
///
/// An element is a fixed-length, ordered sequence of components. The length
/// depends on the type alone, never on the value.
pub trait Element: Copy + Sized {
    type Component: Component;

    /// The channels of the element, in their fixed order.
    spec fn spec_channels(&self) -> Seq<Self::Component>;

    /// The number of channels that every element of this type has.
    spec fn spec_num_channels() -> nat;

    /// Every element has exactly `spec_num_channels()` channels.
    proof fn lemma_channel_count(&self)
        ensures
            self.spec_channels().len() == Self::spec_num_channels(),
    ;

    /// An element is its channels: two elements with the same channels are
    /// the same element.
    proof fn lemma_channels_determine(&self, other: &Self)
        requires
            self.spec_channels() == other.spec_channels(),
        ensures
            *self == *other,
    ;

    /// An element whose every channel is `value`.
    fn splat(value: Self::Component) -> (e: Self)
        ensures
            e.spec_channels() == Seq::new(Self::spec_num_channels(), |i: int| value),
    ;

    /// The channels as a flat slice, in their fixed order.
    fn channels(&self) -> (s: &[Self::Component])
        ensures
            s@ == self.spec_channels(),
            s@.len() == Self::spec_num_channels(),
    ;

    /// The channels as a flat slice, for writing: what the slice holds in
    /// the end is what the element's channels are then.
    fn channels_mut(&mut self) -> (s: &mut [Self::Component])
        ensures
            s@ == old(self).spec_channels(),
            s@.len() == Self::spec_num_channels(),
            final(self).spec_channels() == final(s)@,
    ;

    /// The number of channels of every element of this type.
    fn num_channels() -> (n: u8)
        ensures
            n == Self::spec_num_channels(),
    ;

    /// A new element whose channels are those of `self` passed through `f`,
    /// in order. `self` is left as it is.
    fn map<F>(&self, f: F) -> (r: Self) where F: Fn(Self::Component) -> Self::Component
        requires
            forall|i: int|
                0 <= i < self.spec_channels().len() ==> call_requires(
                    f,
                    (#[trigger] self.spec_channels()[i],),
                ),
        ensures
            mapped_by(f, self.spec_channels(), r.spec_channels()),
    ;

    /// Replaces every channel by what `f` makes of it, in order.
    fn apply<F>(&mut self, f: F) where F: Fn(Self::Component) -> Self::Component
        requires
            forall|i: int|
                0 <= i < old(self).spec_channels().len() ==> call_requires(
                    f,
                    (#[trigger] old(self).spec_channels()[i],),
                ),
        ensures
            mapped_by(f, old(self).spec_channels(), final(self).spec_channels()),
    ;
}

/// `after` is `before` with every channel passed through `f`: the two have
/// the same length, and each channel of `after` is a result of `f` on the
/// channel of `before` at the same place.
pub open spec fn mapped_by<C, F: Fn(C) -> C>(f: F, before: Seq<C>, after: Seq<C>) -> bool {
    &&& after.len() == before.len()
    &&& forall|i: int| 0 <= i < before.len() ==> call_ensures(f, (before[i],), #[trigger] after[i])
}

/// Passes every entry of `data` through `f`, from the first to the last.
fn apply_channels<C: Copy, F: Fn(C) -> C, const N: usize>(data: &mut [C; N], f: F)
    requires
        forall|i: int| 0 <= i < N ==> call_requires(f, (#[trigger] old(data)@[i],)),
    ensures
        mapped_by(f, old(data)@, final(data)@),
{
    let mut i: usize = 0;
    while i < N
        invariant
            i <= N,
            data@.len() == N,
            old(data)@.len() == N,
            forall|j: int| 0 <= j < N ==> call_requires(f, (#[trigger] old(data)@[j],)),
            forall|j: int| 0 <= j < i ==> call_ensures(f, (old(data)@[j],), #[trigger] data@[j]),
            forall|j: int| i <= j < N ==> data@[j] == old(data)@[j],
        decreases N - i,
    {
        let v = f(data[i]);
        data[i] = v;
        i += 1;
    }
}

/// A colour as red, green and blue.
#[derive(PartialEq, Eq, Debug, Copy, Hash)]
pub struct RGB<C: Component> {
    data: [C; 3],
}

impl<C: Component> Default for RGB<C> {
    /// The element whose every channel is zero.
    fn default() -> (e: Self)
        ensures
            e.spec_channels() == Seq::new(3, |i: int| C::spec_zero()),
    {
        Self::splat(C::zero())
    }
}

impl<C: Component> Clone for RGB<C> {
    fn clone(&self) -> (r: Self)
        ensures
            r == *self,
    {
        *self
    }
}

impl<C: Component> RGB<C> {
    pub fn new(red: C, green: C, blue: C) -> (e: Self)
        ensures
            e.spec_channels() == seq![red, green, blue],
    {
        RGB { data: [red, green, blue] }
    }

    pub fn red(&self) -> (c: C)
        ensures
            c == self.spec_channels()[0],
    {
        self.data[0]
    }

    pub fn green(&self) -> (c: C)
        ensures
            c == self.spec_channels()[1],
    {
        self.data[1]
    }

    pub fn blue(&self) -> (c: C)
        ensures
            c == self.spec_channels()[2],
    {
        self.data[2]
    }

    /// An element built from named channels gives each of them back under
    /// its name: the channel that an accessor reads is the constructor's
    /// argument of the same name.
    pub proof fn lemma_named_channels(e: Self, red: C, green: C, blue: C)
        requires
            e.spec_channels() == seq![red, green, blue],
        ensures
            e.spec_channels().len() == 3,
            e.spec_channels()[0] == red,
            e.spec_channels()[1] == green,
            e.spec_channels()[2] == blue,
    {
    }
}

impl<C: Component> Element for RGB<C> {
    type Component = C;

    closed spec fn spec_channels(&self) -> Seq<C> {
        self.data@
    }

    open spec fn spec_num_channels() -> nat {
        3
    }

    proof fn lemma_channel_count(&self) {
    }

    proof fn lemma_channels_determine(&self, other: &Self) {
        assert(self.data =~= other.data);
    }

    fn splat(value: C) -> (e: Self) {
        let e = RGB { data: [value, value, value] };
        assert(e.data@ =~= Seq::new(3, |i: int| value));
        e
    }

    fn channels(&self) -> (s: &[C]) {
        &self.data
    }

    fn channels_mut(&mut self) -> (s: &mut [C]) {
        &mut self.data
    }

    fn num_channels() -> (n: u8) {
        3
    }

    fn map<F>(&self, f: F) -> (r: Self) where F: Fn(C) -> C {
        let mut clone = self.clone();
        clone.apply(f);
        clone
    }

    fn apply<F>(&mut self, f: F) where F: Fn(C) -> C {
        assert(self.spec_channels().len() == Self::spec_num_channels());
        apply_channels(&mut self.data, f);
    }
}

/// A colour as red, green and blue, with alpha.
#[derive(PartialEq, Eq, Debug, Copy, Hash)]
pub struct RGBA<C: Component> {
    data: [C; 4],
}

impl<C: Component> Default for RGBA<C> {
    /// The element whose every channel is zero.
    fn default() -> (e: Self)
        ensures
            e.spec_channels() == Seq::new(4, |i: int| C::spec_zero()),
    {
        Self::splat(C::zero())
    }
}

impl<C: Component> Clone for RGBA<C> {
    fn clone(&self) -> (r: Self)
        ensures
            r == *self,
    {
        *self
    }
}

impl<C: Component> RGBA<C> {
    pub fn new(red: C, green: C, blue: C, alpha: C) -> (e: Self)
        ensures
            e.spec_channels() == seq![red, green, blue, alpha],
    {
        RGBA { data: [red, green, blue, alpha] }
    }

    pub fn red(&self) -> (c: C)
        ensures
            c == self.spec_channels()[0],
    {
        self.data[0]
    }

    pub fn green(&self) -> (c: C)
        ensures
            c == self.spec_channels()[1],
    {
        self.data[1]
    }

    pub fn blue(&self) -> (c: C)
        ensures
            c == self.spec_channels()[2],
    {
        self.data[2]
    }

    pub fn alpha(&self) -> (c: C)
        ensures
            c == self.spec_channels()[3],
    {
        self.data[3]
    }

    /// An element built from named channels gives each of them back under
    /// its name: the channel that an accessor reads is the constructor's
    /// argument of the same name.
    pub proof fn lemma_named_channels(e: Self, red: C, green: C, blue: C, alpha: C)
        requires
            e.spec_channels() == seq![red, green, blue, alpha],
        ensures
            e.spec_channels().len() == 4,
            e.spec_channels()[0] == red,
            e.spec_channels()[1] == green,
            e.spec_channels()[2] == blue,
            e.spec_channels()[3] == alpha,
    {
    }
}

impl<C: Component> Element for RGBA<C> {
    type Component = C;

    closed spec fn spec_channels(&self) -> Seq<C> {
        self.data@
    }

    open spec fn spec_num_channels() -> nat {
        4
    }

    proof fn lemma_channel_count(&self) {
    }

    proof fn lemma_channels_determine(&self, other: &Self) {
        assert(self.data =~= other.data);
    }

    fn splat(value: C) -> (e: Self) {
        let e = RGBA { data: [value, value, value, value] };
        assert(e.data@ =~= Seq::new(4, |i: int| value));
        e
    }

    fn channels(&self) -> (s: &[C]) {
        &self.data
    }

    fn channels_mut(&mut self) -> (s: &mut [C]) {
        &mut self.data
    }

    fn num_channels() -> (n: u8) {
        4
    }

    fn map<F>(&self, f: F) -> (r: Self) where F: Fn(C) -> C {
        let mut clone = self.clone();
        clone.apply(f);
        clone
    }

    fn apply<F>(&mut self, f: F) where F: Fn(C) -> C {
        assert(self.spec_channels().len() == Self::spec_num_channels());
        apply_channels(&mut self.data, f);
    }
}

/// A colour as hue, saturation and value.
#[derive(PartialEq, Eq, Debug, Copy, Hash)]
pub struct HSV<C: Component> {
    data: [C; 3],
}

impl<C: Component> Default for HSV<C> {
    /// The element whose every channel is zero.
    fn default() -> (e: Self)
        ensures
            e.spec_channels() == Seq::new(3, |i: int| C::spec_zero()),
    {
        Self::splat(C::zero())
    }
}

impl<C: Component> Clone for HSV<C> {
    fn clone(&self) -> (r: Self)
        ensures
            r == *self,
    {
        *self
    }
}

impl<C: Component> HSV<C> {
    pub fn new(hue: C, saturation: C, value: C) -> (e: Self)
        ensures
            e.spec_channels() == seq![hue, saturation, value],
    {
        HSV { data: [hue, saturation, value] }
    }

    pub fn hue(&self) -> (c: C)
        ensures
            c == self.spec_channels()[0],
    {
        self.data[0]
    }

    pub fn saturation(&self) -> (c: C)
        ensures
            c == self.spec_channels()[1],
    {
        self.data[1]
    }

    pub fn value(&self) -> (c: C)
        ensures
            c == self.spec_channels()[2],
    {
        self.data[2]
    }

    /// An element built from named channels gives each of them back under
    /// its name: the channel that an accessor reads is the constructor's
    /// argument of the same name.
    pub proof fn lemma_named_channels(e: Self, hue: C, saturation: C, value: C)
        requires
            e.spec_channels() == seq![hue, saturation, value],
        ensures
            e.spec_channels().len() == 3,
            e.spec_channels()[0] == hue,
            e.spec_channels()[1] == saturation,
            e.spec_channels()[2] == value,
    {
    }
}

impl<C: Component> Element for HSV<C> {
    type Component = C;

    closed spec fn spec_channels(&self) -> Seq<C> {
        self.data@
    }

    open spec fn spec_num_channels() -> nat {
        3
    }

    proof fn lemma_channel_count(&self) {
    }

    proof fn lemma_channels_determine(&self, other: &Self) {
        assert(self.data =~= other.data);
    }

    fn splat(value: C) -> (e: Self) {
        let e = HSV { data: [value, value, value] };
        assert(e.data@ =~= Seq::new(3, |i: int| value));
        e
    }

    fn channels(&self) -> (s: &[C]) {
        &self.data
    }

    fn channels_mut(&mut self) -> (s: &mut [C]) {
        &mut self.data
    }

    fn num_channels() -> (n: u8) {
        3
    }

    fn map<F>(&self, f: F) -> (r: Self) where F: Fn(C) -> C {
        let mut clone = self.clone();
        clone.apply(f);
        clone
    }

    fn apply<F>(&mut self, f: F) where F: Fn(C) -> C {
        assert(self.spec_channels().len() == Self::spec_num_channels());
        apply_channels(&mut self.data, f);
    }
}

/// A colour as hue, saturation and lightness.
#[derive(PartialEq, Eq, Debug, Copy, Hash)]
pub struct HSL<C: Component> {
    data: [C; 3],
}

impl<C: Component> Default for HSL<C> {
    /// The element whose every channel is zero.
    fn default() -> (e: Self)
        ensures
            e.spec_channels() == Seq::new(3, |i: int| C::spec_zero()),
    {
        Self::splat(C::zero())
    }
}

impl<C: Component> Clone for HSL<C> {
    fn clone(&self) -> (r: Self)
        ensures
            r == *self,
    {
        *self
    }
}

impl<C: Component> HSL<C> {
    pub fn new(hue: C, saturation: C, lightness: C) -> (e: Self)
        ensures
            e.spec_channels() == seq![hue, saturation, lightness],
    {
        HSL { data: [hue, saturation, lightness] }
    }

    pub fn hue(&self) -> (c: C)
        ensures
            c == self.spec_channels()[0],
    {
        self.data[0]
    }

    pub fn saturation(&self) -> (c: C)
        ensures
            c == self.spec_channels()[1],
    {
        self.data[1]
    }

    pub fn lightness(&self) -> (c: C)
        ensures
            c == self.spec_channels()[2],
    {
        self.data[2]
    }

    /// An element built from named channels gives each of them back under
    /// its name: the channel that an accessor reads is the constructor's
    /// argument of the same name.
    pub proof fn lemma_named_channels(e: Self, hue: C, saturation: C, lightness: C)
        requires
            e.spec_channels() == seq![hue, saturation, lightness],
        ensures
            e.spec_channels().len() == 3,
            e.spec_channels()[0] == hue,
            e.spec_channels()[1] == saturation,
            e.spec_channels()[2] == lightness,
    {
    }
}

impl<C: Component> Element for HSL<C> {
    type Component = C;

    closed spec fn spec_channels(&self) -> Seq<C> {
        self.data@
    }

    open spec fn spec_num_channels() -> nat {
        3
    }

    proof fn lemma_channel_count(&self) {
    }

    proof fn lemma_channels_determine(&self, other: &Self) {
        assert(self.data =~= other.data);
    }

    fn splat(value: C) -> (e: Self) {
        let e = HSL { data: [value, value, value] };
        assert(e.data@ =~= Seq::new(3, |i: int| value));
        e
    }

    fn channels(&self) -> (s: &[C]) {
        &self.data
    }

    fn channels_mut(&mut self) -> (s: &mut [C]) {
        &mut self.data
    }

    fn num_channels() -> (n: u8) {
        3
    }

    fn map<F>(&self, f: F) -> (r: Self) where F: Fn(C) -> C {
        let mut clone = self.clone();
        clone.apply(f);
        clone
    }

    fn apply<F>(&mut self, f: F) where F: Fn(C) -> C {
        assert(self.spec_channels().len() == Self::spec_num_channels());
        apply_channels(&mut self.data, f);
    }
}

/// A colour as cyan, magenta, yellow and black.
#[derive(PartialEq, Eq, Debug, Copy, Hash)]
pub struct CMYK<C: Component> {
    data: [C; 4],
}

impl<C: Component> Default for CMYK<C> {
    /// The element whose every channel is zero.
    fn default() -> (e: Self)
        ensures
            e.spec_channels() == Seq::new(4, |i: int| C::spec_zero()),
    {
        Self::splat(C::zero())
    }
}

impl<C: Component> Clone for CMYK<C> {
    fn clone(&self) -> (r: Self)
        ensures
            r == *self,
    {
        *self
    }
}

impl<C: Component> CMYK<C> {
    pub fn new(cyan: C, magenta: C, yellow: C, black: C) -> (e: Self)
        ensures
            e.spec_channels() == seq![cyan, magenta, yellow, black],
    {
        CMYK { data: [cyan, magenta, yellow, black] }
    }

    pub fn cyan(&self) -> (c: C)
        ensures
            c == self.spec_channels()[0],
    {
        self.data[0]
    }

    pub fn magenta(&self) -> (c: C)
        ensures
            c == self.spec_channels()[1],
    {
        self.data[1]
    }

    pub fn yellow(&self) -> (c: C)
        ensures
            c == self.spec_channels()[2],
    {
        self.data[2]
    }

    pub fn black(&self) -> (c: C)
        ensures
            c == self.spec_channels()[3],
    {
        self.data[3]
    }

    /// An element built from named channels gives each of them back under
    /// its name: the channel that an accessor reads is the constructor's
    /// argument of the same name.
    pub proof fn lemma_named_channels(e: Self, cyan: C, magenta: C, yellow: C, black: C)
        requires
            e.spec_channels() == seq![cyan, magenta, yellow, black],
        ensures
            e.spec_channels().len() == 4,
            e.spec_channels()[0] == cyan,
            e.spec_channels()[1] == magenta,
            e.spec_channels()[2] == yellow,
            e.spec_channels()[3] == black,
    {
    }
}

impl<C: Component> Element for CMYK<C> {
    type Component = C;

    closed spec fn spec_channels(&self) -> Seq<C> {
        self.data@
    }

    open spec fn spec_num_channels() -> nat {
        4
    }

    proof fn lemma_channel_count(&self) {
    }

    proof fn lemma_channels_determine(&self, other: &Self) {
        assert(self.data =~= other.data);
    }

    fn splat(value: C) -> (e: Self) {
        let e = CMYK { data: [value, value, value, value] };
        assert(e.data@ =~= Seq::new(4, |i: int| value));
        e
    }

    fn channels(&self) -> (s: &[C]) {
        &self.data
    }

    fn channels_mut(&mut self) -> (s: &mut [C]) {
        &mut self.data
    }

    fn num_channels() -> (n: u8) {
        4
    }

    fn map<F>(&self, f: F) -> (r: Self) where F: Fn(C) -> C {
        let mut clone = self.clone();
        clone.apply(f);
        clone
    }

    fn apply<F>(&mut self, f: F) where F: Fn(C) -> C {
        assert(self.spec_channels().len() == Self::spec_num_channels());
        apply_channels(&mut self.data, f);
    }
}

} // verus!
