//! The wallpaper model: named layers with content, effect kind, z-index,
//! opacity and free-form parameters, plus the declared frame and tick rates.
//! Parsing manifest files from disk is the loading collaborator's job; this
//! module holds the model and the rules that interpret it.

use vstd::prelude::*;

use crate::utils::{sorted_order, spec_str_contains, str_contains, str_eq};

verus! {

/// A free-form parameter value. Fractional numbers are carried in
/// thousandths, so the model stays in integers.
pub enum ParamValue {
    /// A whole number.
    Int(i64),
    /// A fractional number in thousandths: `1500` stands for one and a half.
    Milli(i64),
    /// A text value.
    Text(String),
    /// A truth value.
    Flag(bool),
}

/// One named parameter.
pub struct ParamEntry {
    pub name: String,
    pub value: ParamValue,
}

/// A free-form parameter map; the first entry with a name wins.
pub struct ParamMap {
    pub entries: Vec<ParamEntry>,
}

/// The first value stored under `name`, if any.
pub open spec fn spec_param_get(s: Seq<ParamEntry>, name: Seq<char>) -> Option<ParamValue>
    decreases s.len(),
{
    if s.len() == 0 {
        None
    } else if s[0].name@ == name {
        Some(s[0].value)
    } else {
        spec_param_get(s.skip(1), name)
    }
}

impl ParamMap {
    /// An empty parameter map.
    pub fn new() -> (r: Self)
        ensures
            r.entries@.len() == 0,
            forall|n: Seq<char>| spec_param_get(r.entries@, n) is None,
    {
        let r = ParamMap { entries: Vec::new() };
        proof {
            assert forall|n: Seq<char>| spec_param_get(r.entries@, n) is None by {}
        }
        r
    }

    /// Looks up the first value stored under `name`.
    pub fn get(&self, name: &str) -> (r: Option<&ParamValue>)
        ensures
            match r {
                Some(v) => spec_param_get(self.entries@, name@) == Some(*v),
                None => spec_param_get(self.entries@, name@) is None,
            },
    {
        proof {
            assert(self.entries@.skip(0) =~= self.entries@);
        }
        let mut i: usize = 0;
        while i < self.entries.len()
            invariant
                0 <= i <= self.entries@.len(),
                spec_param_get(self.entries@, name@) == spec_param_get(
                    self.entries@.skip(i as int),
                    name@,
                ),
            decreases self.entries@.len() - i,
        {
            proof {
                assert(self.entries@.skip(i as int)[0] == self.entries@[i as int]);
            }
            if str_eq(self.entries[i].name.as_str(), name) {
                return Some(&self.entries[i].value);
            }
            proof {
                assert(self.entries@.skip(i as int).skip(1) =~= self.entries@.skip(i as int + 1));
            }
            i += 1;
        }
        None
    }

    /// Adds a parameter at the end of the map.
    pub fn push(&mut self, name: String, value: ParamValue)
        ensures
            final(self).entries@ == old(self).entries@.push(
                ParamEntry { name: name, value: value },
            ),
    {
        self.entries.push(ParamEntry { name, value });
    }
}

impl Clone for ParamValue {
    /// A parameter value clones to an equal value.
    fn clone(&self) -> (res: Self)
        ensures
            res == *self,
    {
        match self {
            ParamValue::Int(v) => ParamValue::Int(*v),
            ParamValue::Milli(v) => ParamValue::Milli(*v),
            ParamValue::Text(s) => ParamValue::Text(s.clone()),
            ParamValue::Flag(b) => ParamValue::Flag(*b),
        }
    }
}

impl Clone for ParamEntry {
    /// A parameter entry clones to an equal entry.
    fn clone(&self) -> (res: Self)
        ensures
            res == *self,
    {
        ParamEntry { name: self.name.clone(), value: self.value.clone() }
    }
}

impl Clone for ParamMap {
    /// A parameter map clones to a map with equal contents.
    fn clone(&self) -> (res: Self)
        ensures
            res.entries@ == self.entries@,
    {
        let mut entries: Vec<ParamEntry> = Vec::with_capacity(self.entries.len());
        let mut i: usize = 0;
        while i < self.entries.len()
            invariant
                0 <= i <= self.entries@.len(),
                entries@.len() == i,
                forall|j: int| 0 <= j < i ==> #[trigger] entries@[j] == self.entries@[j],
            decreases self.entries@.len() - i,
        {
            entries.push(self.entries[i].clone());
            i += 1;
        }
        proof {
            assert(entries@ =~= self.entries@);
        }
        ParamMap { entries }
    }
}

/// What a layer shows: a solid color, an image file, or nothing.
pub enum LayerContent {
    /// A solid color as a CSS-style color string.
    Color(String),
    /// An image file, as a path relative to the wallpaper directory.
    Image(String),
    /// No content; the layer is transparent on its own.
    Empty,
}

impl Default for LayerContent {
    /// A layer without content defaults to none.
    fn default() -> (r: Self)
        ensures
            r is Empty,
    {
        LayerContent::Empty
    }
}

impl Clone for LayerContent {
    /// A content value clones to an equal value.
    fn clone(&self) -> (res: Self)
        ensures
            res == *self,
    {
        match self {
            LayerContent::Color(s) => LayerContent::Color(s.clone()),
            LayerContent::Image(s) => LayerContent::Image(s.clone()),
            LayerContent::Empty => LayerContent::Empty,
        }
    }
}

impl LayerContent {
    /// Reads a manifest content string: a value that starts with `#` or
    /// mentions `rgba` is a color, anything else is an image path.
    pub fn classify(value: String) -> (r: Self)
        ensures
            ((value@.len() > 0 && value@[0] == '#') || spec_str_contains(value@, "rgba"@)) ==> (
            r matches LayerContent::Color(s) && s == value),
            !((value@.len() > 0 && value@[0] == '#') || spec_str_contains(value@, "rgba"@)) ==> (
            r matches LayerContent::Image(s) && s == value),
    {
        let is_color = (value.as_str().unicode_len() > 0 && value.as_str().get_char(0) == '#')
            || str_contains(value.as_str(), "rgba");
        if is_color {
            LayerContent::Color(value)
        } else {
            LayerContent::Image(value)
        }
    }
}

/// The shader effect kinds.
pub enum ShaderType {
    Wave,
    Glitch,
    Gaussian,
    Custom(String),
}

impl Clone for ShaderType {
    /// A shader kind clones to an equal kind.
    fn clone(&self) -> (res: Self)
        ensures
            res == *self,
    {
        match self {
            ShaderType::Wave => ShaderType::Wave,
            ShaderType::Glitch => ShaderType::Glitch,
            ShaderType::Gaussian => ShaderType::Gaussian,
            ShaderType::Custom(s) => ShaderType::Custom(s.clone()),
        }
    }
}

/// What effect a layer applies.
pub enum EffectType {
    /// A particle field.
    Particles,
    /// A shader effect.
    Shader(ShaderType),
    /// No effect: a plain image or color.
    Plain,
}

impl Clone for EffectType {
    /// An effect kind clones to an equal kind.
    fn clone(&self) -> (res: Self)
        ensures
            res == *self,
    {
        match self {
            EffectType::Particles => EffectType::Particles,
            EffectType::Shader(s) => EffectType::Shader(s.clone()),
            EffectType::Plain => EffectType::Plain,
        }
    }
}

impl Default for EffectType {
    /// A layer without an effect is plain.
    fn default() -> (r: Self)
        ensures
            r is Plain,
    {
        EffectType::Plain
    }
}

/// How a background image is scaled to the display.
pub enum ScaleMode {
    /// Scale to fill the screen, possibly cropping.
    Fill,
    /// Scale to fit the screen, possibly leaving borders.
    Fit,
    /// Stretch to the screen, possibly distorting.
    Stretch,
    /// Center without scaling.
    Center,
    /// Tile the image.
    Tile,
}

impl Default for ScaleMode {
    /// Images fill the display unless the manifest says otherwise.
    fn default() -> (r: Self)
        ensures
            r is Fill,
    {
        ScaleMode::Fill
    }
}

/// One visual layer of a wallpaper. Opacity is carried in thousandths:
/// `1000` is fully opaque.
pub struct Layer {
    /// Name of the layer.
    pub name: String,
    /// What the layer shows.
    pub content: LayerContent,
    /// The effect applied to it, if any.
    pub effect_type: Option<EffectType>,
    /// Stacking position; lower values are painted first, further back.
    pub z_index: i32,
    /// Opacity in thousandths, `0` transparent to `1000` opaque.
    pub opacity_milli: u32,
    /// Free-form effect parameters.
    pub params: ParamMap,
}

impl Clone for Layer {
    /// A layer clones to one with equal contents.
    fn clone(&self) -> (res: Self)
        ensures
            res.name@ == self.name@,
            res.content == self.content,
            res.effect_type == self.effect_type,
            res.z_index == self.z_index,
            res.opacity_milli == self.opacity_milli,
            res.params.entries@ == self.params.entries@,
    {
        let effect_type: Option<EffectType> = match &self.effect_type {
            Some(e) => Some(e.clone()),
            None => None,
        };
        Layer {
            name: self.name.clone(),
            content: self.content.clone(),
            effect_type,
            z_index: self.z_index,
            opacity_milli: self.opacity_milli,
            params: self.params.clone(),
        }
    }
}

/// The default version a manifest gets when it declares none.
pub fn default_version() -> (r: String)
    ensures
        r@ == "1.0.0"@,
{
    "1.0.0".to_owned()
}

/// The default declared framerate: 30 redraws per second.
pub fn default_fps() -> (r: i32)
    ensures
        r == 30,
{
    30
}

/// The default declared tickrate: compositor-driven.
pub fn default_tps() -> (r: i32)
    ensures
        r == -1,
{
    -1
}

/// The default z-index; backgrounds are expected to use negative values.
pub fn default_z_index() -> (r: i32)
    ensures
        r == 0,
{
    0
}

/// The default opacity: fully opaque.
pub fn default_opacity_milli() -> (r: u32)
    ensures
        r == 1000,
{
    1000
}

impl Layer {
    /// A solid background color layer, placed at the very bottom.
    pub fn new_background_color(color: &str) -> (r: Self)
        ensures
            r.name@ == "background"@,
            r.content matches LayerContent::Color(c) && c@ == color@,
            r.effect_type is None,
            r.z_index == -1000,
            r.opacity_milli == 1000,
            r.params.entries@.len() == 0,
    {
        Layer {
            name: "background".to_owned(),
            content: LayerContent::Color(color.to_owned()),
            effect_type: None,
            z_index: -1000,
            opacity_milli: 1000,
            params: ParamMap::new(),
        }
    }

    /// A background image layer, placed just above the background color.
    pub fn new_background_image(image_path: &str) -> (r: Self)
        ensures
            r.name@ == "background"@,
            r.content matches LayerContent::Image(p) && p@ == image_path@,
            r.effect_type is None,
            r.z_index == -999,
            r.opacity_milli == 1000,
            r.params.entries@.len() == 0,
    {
        Layer {
            name: "background".to_owned(),
            content: LayerContent::Image(image_path.to_owned()),
            effect_type: None,
            z_index: -999,
            opacity_milli: 1000,
            params: ParamMap::new(),
        }
    }

    /// An effect layer at the given stacking position.
    pub fn new_effect(name: &str, effect_type: EffectType, content: LayerContent, z_index: i32) -> (r: Self)
        ensures
            r.name@ == name@,
            r.content == content,
            r.effect_type == Some(effect_type),
            r.z_index == z_index,
            r.opacity_milli == 1000,
            r.params.entries@.len() == 0,
    {
        Layer {
            name: name.to_owned(),
            content,
            effect_type: Some(effect_type),
            z_index,
            opacity_milli: 1000,
            params: ParamMap::new(),
        }
    }

    /// Whether this layer is a background: it sits at a negative z-index or
    /// carries "background" in its name.
    pub fn is_background(&self) -> (r: bool)
        ensures
            r == (self.z_index < 0 || spec_str_contains(self.name@, "background"@)),
    {
        self.z_index < 0 || str_contains(self.name.as_str(), "background")
    }

    /// Whether this layer carries a particle or shader effect.
    pub open spec fn spec_has_effect(self) -> bool {
        match self.effect_type {
            Some(EffectType::Particles) => true,
            Some(EffectType::Shader(_)) => true,
            _ => false,
        }
    }
}

/// Whether the character is a decimal digit.
pub open spec fn spec_is_digit(c: char) -> bool {
    48 <= c as u32 <= 57
}

/// Every character is a decimal digit, and there is at least one.
pub open spec fn spec_all_digits(s: Seq<char>) -> bool {
    s.len() > 0 && forall|i: int| 0 <= i < s.len() ==> spec_is_digit(#[trigger] s[i])
}

/// The value of a run of decimal digits, most significant first.
pub open spec fn spec_digits_to_int(s: Seq<char>) -> int
    decreases s.len(),
{
    if s.len() == 0 {
        0
    } else {
        spec_digits_to_int(s.drop_last()) * 10 + (s.last() as u32 - 48)
    }
}

/// A digit run's value is never negative.
pub proof fn lemma_digits_nonneg(s: Seq<char>)
    requires
        forall|i: int| 0 <= i < s.len() ==> spec_is_digit(#[trigger] s[i]),
    ensures
        spec_digits_to_int(s) >= 0,
    decreases s.len(),
{
    if s.len() > 0 {
        lemma_digits_nonneg(s.drop_last());
    }
}

/// A digit run's value only grows as digits are appended.
pub proof fn lemma_digits_prefix(s: Seq<char>, k: int)
    requires
        forall|i: int| 0 <= i < s.len() ==> spec_is_digit(#[trigger] s[i]),
        0 <= k <= s.len(),
    ensures
        spec_digits_to_int(s.take(k)) <= spec_digits_to_int(s),
    decreases s.len() - k,
{
    if k == s.len() {
        assert(s.take(k) =~= s);
    } else {
        lemma_digits_prefix(s, k + 1);
        let p = s.take(k + 1);
        assert(p.drop_last() =~= s.take(k));
        lemma_digits_nonneg(s.take(k));
        assert(spec_digits_to_int(p) == spec_digits_to_int(s.take(k)) * 10 + (p.last() as u32
            - 48));
        assert(spec_digits_to_int(s.take(k)) <= spec_digits_to_int(p));
    }
}

/// The digit body of a signed decimal literal: everything after a leading
/// `+` or `-`.
pub open spec fn spec_int_body(s: Seq<char>) -> Seq<char> {
    if s.len() > 0 && (s[0] == '-' || s[0] == '+') {
        s.skip(1)
    } else {
        s
    }
}

/// Whether the literal is negative.
pub open spec fn spec_int_negative(s: Seq<char>) -> bool {
    s.len() > 0 && s[0] == '-'
}

/// The value of a signed decimal literal, if it is well formed and fits.
pub open spec fn spec_parse_i32(s: Seq<char>) -> Option<i32> {
    let body = spec_int_body(s);
    if !spec_all_digits(body) {
        None
    } else {
        let v = spec_digits_to_int(body);
        if spec_int_negative(s) {
            if v <= 2147483648 {
                Some((-v) as i32)
            } else {
                None
            }
        } else {
            if v <= 2147483647 {
                Some(v as i32)
            } else {
                None
            }
        }
    }
}

/// Parses a signed decimal integer, exactly the values `i32` can hold.
pub fn parse_i32(s: &str) -> (r: Option<i32>)
    ensures
        r == spec_parse_i32(s@),
{
    let n = s.unicode_len();
    if n == 0 {
        return None;
    }
    let first = s.get_char(0);
    let neg = first == '-';
    let has_sign = neg || first == '+';
    let start: usize = if has_sign {
        1
    } else {
        0
    };
    let ghost body = spec_int_body(s@);
    proof {
        assert(body =~= s@.skip(start as int));
    }
    if start == n {
        proof {
            assert(body.len() == 0);
        }
        return None;
    }
    let mut acc: i64 = 0;
    let mut i: usize = start;
    while i < n
        invariant
            n == s@.len(),
            start <= i <= n,
            start < n,
            (start == 1) == (s@.len() > 0 && (s@[0] == '-' || s@[0] == '+')),
            start == 0 || start == 1,
            neg == spec_int_negative(s@),
            body == spec_int_body(s@),
            body =~= s@.skip(start as int),
            forall|j: int| start <= j < i ==> spec_is_digit(#[trigger] s@[j]),
            acc == spec_digits_to_int(s@.subrange(start as int, i as int)),
            0 <= acc <= 2147483648,
        decreases n - i,
    {
        let c = s.get_char(i);
        let cv = c as u32;
        if cv < 48 || cv > 57 {
            proof {
                assert(body[i - start] == s@[i as int]);
                assert(!spec_all_digits(body));
            }
            return None;
        }
        let d = (cv - 48) as i64;
        let next = acc * 10 + d;
        proof {
            let pref = s@.subrange(start as int, i as int + 1);
            assert(pref.drop_last() =~= s@.subrange(start as int, i as int));
            assert(pref.last() == s@[i as int]);
            assert(next == spec_digits_to_int(pref));
        }
        if next > 2147483648 {
            proof {
                if spec_all_digits(body) {
                    let k = i + 1 - start;
                    assert(body.take(k as int) =~= s@.subrange(start as int, i as int + 1));
                    assert forall|j: int| 0 <= j < body.len() implies spec_is_digit(
                        #[trigger] body[j],
                    ) by {
                        assert(body[j] == s@[start + j]);
                    }
                    lemma_digits_prefix(body, k as int);
                    assert(spec_digits_to_int(body) > 2147483648);
                }
            }
            return None;
        }
        acc = next;
        i += 1;
    }
    proof {
        assert(s@.subrange(start as int, n as int) =~= body);
        assert forall|j: int| 0 <= j < body.len() implies spec_is_digit(#[trigger] body[j]) by {
            assert(body[j] == s@[start + j]);
        }
        assert(spec_all_digits(body));
    }
    if neg {
        Some((-acc) as i32)
    } else {
        if acc <= 2147483647 {
            Some(acc as i32)
        } else {
            None
        }
    }
}

/// Whether `a` equals `b` when ASCII capitals in `a` are folded to lower
/// case; `b` is expected to be a lowercase keyword.
pub open spec fn spec_eq_ignore_ascii_case(a: Seq<char>, b: Seq<char>) -> bool {
    a.len() == b.len() && forall|i: int|
        0 <= i < a.len() ==> ((#[trigger] a[i]) == b[i] || (65 <= a[i] as u32 <= 90 && a[i] as u32
            + 32 == b[i] as u32))
}

/// Compares a string against a lowercase ASCII keyword, folding capitals.
pub fn eq_ignore_ascii_case(a: &str, b: &str) -> (r: bool)
    ensures
        r == spec_eq_ignore_ascii_case(a@, b@),
{
    let n = a.unicode_len();
    if n != b.unicode_len() {
        return false;
    }
    let mut i: usize = 0;
    while i < n
        invariant
            n == a@.len(),
            n == b@.len(),
            0 <= i <= n,
            forall|j: int|
                0 <= j < i ==> ((#[trigger] a@[j]) == b@[j] || (65 <= a@[j] as u32 <= 90 && a@[j]
                    as u32 + 32 == b@[j] as u32)),
        decreases n - i,
    {
        let ca = a.get_char(i) as u32;
        let cb = b.get_char(i) as u32;
        let same = ca == cb || (65 <= ca && ca <= 90 && ca + 32 == cb);
        if !same {
            return false;
        }
        i += 1;
    }
    true
}

/// The meaning of a declared framerate string: `compositor` asks for
/// compositor-driven pacing, `static` for no automatic redraws, `default`
/// for the default rate, and anything else must be a number.
pub open spec fn spec_framerate_of_str(s: Seq<char>) -> Option<i32> {
    if spec_eq_ignore_ascii_case(s, "compositor"@) {
        Some(-1i32)
    } else if spec_eq_ignore_ascii_case(s, "static"@) {
        Some(0i32)
    } else if spec_eq_ignore_ascii_case(s, "default"@) {
        Some(30i32)
    } else {
        spec_parse_i32(s)
    }
}

/// Reads a declared framerate given as a string.
pub fn framerate_of_str(s: &str) -> (r: Option<i32>)
    ensures
        r == spec_framerate_of_str(s@),
{
    if eq_ignore_ascii_case(s, "compositor") {
        Some(-1i32)
    } else if eq_ignore_ascii_case(s, "static") {
        Some(0i32)
    } else if eq_ignore_ascii_case(s, "default") {
        Some(30i32)
    } else {
        parse_i32(s)
    }
}

/// The meaning of a declared tickrate string; it differs from the framerate
/// only in its default, which is compositor-driven.
pub open spec fn spec_tickrate_of_str(s: Seq<char>) -> Option<i32> {
    if spec_eq_ignore_ascii_case(s, "compositor"@) {
        Some(-1i32)
    } else if spec_eq_ignore_ascii_case(s, "static"@) {
        Some(0i32)
    } else if spec_eq_ignore_ascii_case(s, "default"@) {
        Some(-1i32)
    } else {
        spec_parse_i32(s)
    }
}

/// Reads a declared tickrate given as a string.
pub fn tickrate_of_str(s: &str) -> (r: Option<i32>)
    ensures
        r == spec_tickrate_of_str(s@),
{
    if eq_ignore_ascii_case(s, "compositor") {
        Some(-1i32)
    } else if eq_ignore_ascii_case(s, "static") {
        Some(0i32)
    } else if eq_ignore_ascii_case(s, "default") {
        Some(-1i32)
    } else {
        parse_i32(s)
    }
}

/// A wallpaper manifest: metadata, pacing, and the visual layers.
pub struct WallpaperManifest {
    /// Name of the wallpaper.
    pub name: String,
    /// Its author, possibly empty.
    pub author: String,
    /// Its version string.
    pub version: String,
    /// A free-form description.
    pub description: String,
    /// Redraws per second: negative for compositor-driven pacing, zero for a
    /// static wallpaper, positive for an explicit rate.
    pub framerate: i32,
    /// Animation updates per second, with the same special values.
    pub tickrate: i32,
    /// How background images are scaled.
    pub scale_mode: ScaleMode,
    /// The visual layers, in manifest order.
    pub layers: Vec<Layer>,
}

/// An index order over `layers` that sorts ascending by z-index, keeps equal
/// z-indices in manifest order, and names every layer exactly once.
pub open spec fn spec_is_stable_z_order(ord: Seq<usize>, layers: Seq<Layer>) -> bool {
    &&& ord.len() == layers.len()
    &&& forall|a: int| 0 <= a < ord.len() ==> (#[trigger] ord[a]) < layers.len()
    &&& forall|a: int, b: int|
        0 <= a < b < ord.len() ==> layers[#[trigger] ord[a] as int].z_index <= layers[
            #[trigger] ord[b] as int
        ].z_index
    &&& forall|a: int, b: int|
        0 <= a < b < ord.len() && layers[#[trigger] ord[a] as int].z_index == layers[
            #[trigger] ord[b] as int
        ].z_index ==> ord[a] < ord[b]
    &&& forall|k: int| 0 <= k < layers.len() ==> #[trigger] ord.contains(k as usize)
}

/// Computes the stable painting order of a layer list: ascending by z-index,
/// ties kept in manifest order.
pub fn stable_z_order(layers: &Vec<Layer>) -> (r: Vec<usize>)
    ensures
        spec_is_stable_z_order(r@, layers@),
{
    let mut zs: Vec<i32> = Vec::with_capacity(layers.len());
    let mut i: usize = 0;
    while i < layers.len()
        invariant
            0 <= i <= layers@.len(),
            zs@.len() == i,
            forall|j: int| 0 <= j < i ==> #[trigger] zs@[j] == layers@[j].z_index,
        decreases layers@.len() - i,
    {
        zs.push(layers[i].z_index);
        i += 1;
    }
    sorted_order(&zs)
}

/// An increasing selection of `layers` covering exactly the layers `pred`
/// marks: `idx` names, in increasing order, which layer each output element
/// is, and a layer is selected exactly when the predicate holds of it.
pub open spec fn spec_layer_selection(
    out: Seq<Layer>,
    layers: Seq<Layer>,
    idx: Seq<int>,
    pred: spec_fn(Layer) -> bool,
) -> bool {
    &&& idx.len() == out.len()
    &&& forall|k: int| 0 <= k < idx.len() ==> 0 <= #[trigger] idx[k] < layers.len()
    &&& forall|a: int, b: int| 0 <= a < b < idx.len() ==> idx[a] < idx[b]
    &&& forall|k: int| 0 <= k < out.len() ==> #[trigger] out[k] == layers[idx[k]]
    &&& forall|j: int|
        0 <= j < layers.len() ==> (pred(#[trigger] layers[j]) <==> exists|k: int|
            0 <= k < idx.len() && #[trigger] idx[k] == j)
}

/// The layers a sequence of references names, as values.
pub open spec fn spec_layer_values(s: Seq<&Layer>) -> Seq<Layer> {
    s.map_values(|l: &Layer| *l)
}

/// Whether a layer carries any effect entry at all.
pub open spec fn spec_effect_entry_pred() -> spec_fn(Layer) -> bool {
    |l: Layer| l.effect_type is Some
}

/// Whether a layer is a background: a negative z-index or "background" in
/// its name.
pub open spec fn spec_background_pred() -> spec_fn(Layer) -> bool {
    |l: Layer| l.z_index < 0 || spec_str_contains(l.name@, "background"@)
}

/// The output is an increasing selection of the layers taken in the painting
/// order `ord`, covering exactly the background layers.
pub open spec fn spec_background_selection(
    out: Seq<Layer>,
    layers: Seq<Layer>,
    ord: Seq<usize>,
    idx: Seq<int>,
) -> bool {
    spec_layer_selection(
        out,
        Seq::new(ord.len(), |p: int| layers[ord[p] as int]),
        idx,
        spec_background_pred(),
    )
}

impl WallpaperManifest {
    /// The layers in painting order: ascending by z-index, bottom first,
    /// with equal z-indices kept in manifest order.
    pub fn get_sorted_layers(&self) -> (r: Vec<&Layer>)
        ensures
            exists|ord: Seq<usize>|
                #[trigger] spec_is_stable_z_order(ord, self.layers@) && r@.len() == ord.len()
                    && forall|i: int| 0 <= i < r@.len() ==> *(#[trigger] r@[i]) == self.layers@[
                    ord[i] as int
                ],
    {
        let order = stable_z_order(&self.layers);
        let mut r: Vec<&Layer> = Vec::with_capacity(order.len());
        let mut i: usize = 0;
        while i < order.len()
            invariant
                0 <= i <= order@.len(),
                r@.len() == i,
                spec_is_stable_z_order(order@, self.layers@),
                forall|j: int|
                    0 <= j < i ==> *(#[trigger] r@[j]) == self.layers@[order@[j] as int],
            decreases order@.len() - i,
        {
            r.push(&self.layers[order[i]]);
            i += 1;
        }
        r
    }

    /// The first layer with the given name, if any.
    pub fn get_layer_by_name(&self, name: &str) -> (r: Option<&Layer>)
        ensures
            r matches Some(l) ==> l.name@ == name@,
            r matches Some(l) ==> exists|i: int|
                {
                    &&& 0 <= i < self.layers@.len()
                    &&& *l == #[trigger] self.layers@[i]
                    &&& forall|j: int| 0 <= j < i ==> (#[trigger] self.layers@[j]).name@ != name@
                },
            r is None ==> forall|i: int| 0 <= i < self.layers@.len() ==> (#[trigger] self.layers@[i]).name@ != name@,
    {
        let mut i: usize = 0;
        while i < self.layers.len()
            invariant
                0 <= i <= self.layers@.len(),
                forall|j: int| 0 <= j < i ==> (#[trigger] self.layers@[j]).name@ != name@,
            decreases self.layers@.len() - i,
        {
            if str_eq(self.layers[i].name.as_str(), name) {
                proof {
                    let w = i as int;
                    assert(*(&self.layers@[w]) == self.layers@[w]);
                }
                return Some(&self.layers[i]);
            }
            i += 1;
        }
        None
    }

    /// The background layers (negative z-index or "background" in the name):
    /// exactly those, each once, in painting order.
    pub fn get_background_layers(&self) -> (r: Vec<&Layer>)
        ensures
            forall|i: int|
                0 <= i < r@.len() ==> (#[trigger] r@[i]).z_index < 0 || spec_str_contains(
                    r@[i].name@,
                    "background"@,
                ),
            forall|i: int, j: int| 0 <= i < j < r@.len() ==> r@[i].z_index <= r@[j].z_index,
            exists|ord: Seq<usize>, idx: Seq<int>|
                spec_is_stable_z_order(ord, self.layers@) && #[trigger] spec_background_selection(
                    spec_layer_values(r@),
                    self.layers@,
                    ord,
                    idx,
                ),
    {
        let ghost pred = spec_background_pred();
        let sorted = self.get_sorted_layers();
        let ghost ord = choose|o: Seq<usize>|
            #[trigger] spec_is_stable_z_order(o, self.layers@) && sorted@.len() == o.len()
                && forall|i: int|
                0 <= i < sorted@.len() ==> *(#[trigger] sorted@[i]) == self.layers@[o[i] as int];
        let ghost base = Seq::new(ord.len(), |p: int| self.layers@[ord[p] as int]);
        proof {
            assert forall|p: int| 0 <= p < sorted@.len() implies *(#[trigger] sorted@[p])
                == base[p] by {
                assert(*sorted@[p] == self.layers@[ord[p] as int]);
            }
        }
        let mut r: Vec<&Layer> = Vec::new();
        let ghost mut idx: Seq<int> = Seq::empty();
        let mut i: usize = 0;
        while i < sorted.len()
            invariant
                0 <= i <= sorted@.len(),
                pred == spec_background_pred(),
                sorted@.len() == base.len(),
                base == Seq::new(ord.len(), |p: int| self.layers@[ord[p] as int]),
                spec_is_stable_z_order(ord, self.layers@),
                forall|p: int| 0 <= p < sorted@.len() ==> *(#[trigger] sorted@[p]) == base[p],
                forall|a: int, b: int|
                    0 <= a < b < sorted@.len() ==> (#[trigger] sorted@[a]).z_index <= (
                    #[trigger] sorted@[b]).z_index,
                forall|a: int|
                    0 <= a < r@.len() ==> (#[trigger] r@[a]).z_index < 0 || spec_str_contains(
                        r@[a].name@,
                        "background"@,
                    ),
                forall|a: int, b: int|
                    0 <= a < b < r@.len() ==> (#[trigger] r@[a]).z_index <= (
                    #[trigger] r@[b]).z_index,
                idx.len() == r@.len(),
                forall|k: int| 0 <= k < idx.len() ==> 0 <= #[trigger] idx[k] < i,
                forall|a: int, b: int| 0 <= a < b < idx.len() ==> idx[a] < idx[b],
                forall|k: int| 0 <= k < r@.len() ==> *(#[trigger] r@[k]) == base[idx[k]],
                forall|j: int|
                    0 <= j < i ==> (pred(#[trigger] base[j]) <==> exists|k: int|
                        0 <= k < idx.len() && #[trigger] idx[k] == j),
            decreases sorted@.len() - i,
        {
            let ghost idx_before = idx;
            let mut pushed = false;
            let layer = sorted[i];
            if layer.is_background() {
                r.push(layer);
                pushed = true;
                proof {
                    idx = idx.push(i as int);
                }
            }
            proof {
                assert(*sorted@[i as int] == base[i as int]);
                assert(pred(base[i as int]) == pushed);
                if pushed {
                    assert(idx[idx.len() - 1] == i as int);
                }
                assert forall|j: int|
                    0 <= j < i + 1 implies (pred(#[trigger] base[j]) <==> exists|k: int|
                    0 <= k < idx.len() && #[trigger] idx[k] == j) by {
                    if j < i {
                        if pred(base[j]) {
                            let w = choose|k: int|
                                0 <= k < idx_before.len() && #[trigger] idx_before[k] == j;
                            assert(idx[w] == j);
                        }
                        if exists|k: int| 0 <= k < idx.len() && #[trigger] idx[k] == j {
                            let w = choose|k: int| 0 <= k < idx.len() && #[trigger] idx[k] == j;
                            assert(w < idx_before.len());
                            assert(idx_before[w] == j);
                        }
                    } else {
                        if pushed {
                            assert(idx[idx.len() - 1] == j);
                        } else {
                            if exists|k: int| 0 <= k < idx.len() && #[trigger] idx[k] == j {
                                let w = choose|k: int|
                                    0 <= k < idx.len() && #[trigger] idx[k] == j;
                                assert(idx_before[w] < i as int);
                            }
                        }
                    }
                }
            }
            i += 1;
        }
        proof {
            let vals = spec_layer_values(r@);
            assert forall|k: int| 0 <= k < vals.len() implies #[trigger] vals[k]
                == base[idx[k]] by {
                assert(vals[k] == *r@[k]);
            }
            assert(spec_layer_selection(vals, base, idx, pred));
            assert(spec_background_selection(vals, self.layers@, ord, idx));
        }
        r
    }

    /// The declared tickrate: positive for an explicit rate, zero for static
    /// content, negative for compositor-driven pacing.
    pub fn get_tickrate(&self) -> (r: i32)
        ensures
            r == self.tickrate,
    {
        self.tickrate
    }

    /// Whether the wallpaper is animated: some layer carries a particle or
    /// shader effect, and at least one of the declared rates is not static.
    pub fn is_animated(&self) -> (r: bool)
        ensures
            r == ((self.framerate != 0 || self.tickrate != 0) && exists|i: int|
                0 <= i < self.layers@.len() && (#[trigger] self.layers@[i]).spec_has_effect()),
    {
        if self.framerate == 0 && self.tickrate == 0 {
            return false;
        }
        let mut i: usize = 0;
        while i < self.layers.len()
            invariant
                self.framerate != 0 || self.tickrate != 0,
                0 <= i <= self.layers@.len(),
                forall|j: int| 0 <= j < i ==> !(#[trigger] self.layers@[j]).spec_has_effect(),
            decreases self.layers@.len() - i,
        {
            let has = match &self.layers[i].effect_type {
                Some(EffectType::Particles) => true,
                Some(EffectType::Shader(_)) => true,
                _ => false,
            };
            if has {
                proof {
                    let w = i as int;
                    assert(0 <= w < self.layers@.len() && self.layers@[w].spec_has_effect());
                    assert(exists|j: int|
                        0 <= j < self.layers@.len() && (#[trigger] self.layers@[j]).spec_has_effect());
                }
                return true;
            }
            i += 1;
        }
        false
    }
}

} // verus!
