//! Template images and the library of templates by name.
use vstd::prelude::*;
use crate::config::{RoiPct, TemplateConfig};
use crate::error::{BotError, ConfigError};
use crate::text::str_eq;

verus! {

/// A grayscale template: row-major 8-bit pixels, its acceptance threshold
/// (IEEE-754 bits) and its optional search region.
#[derive(Debug, Clone)]
pub struct Template {
    pub name: String,
    pub pixels: Vec<u8>,
    pub width: u32,
    pub height: u32,
    pub threshold: u32,
    pub roi: Option<RoiPct>,
}

impl Template {
    /// The pixel buffer holds exactly `width * height` pixels.
    pub open spec fn well_formed(&self) -> bool {
        self.pixels@.len() == self.width as int * self.height as int
    }
}

/// Templates by name, in loading order; no two share a name and every
/// pixel buffer matches its size.
pub struct TemplateLibrary {
    templates: Vec<Template>,
}

/// No two templates share a name.
pub open spec fn template_names_distinct(ts: Seq<Template>) -> bool {
    forall|i: int, j: int| 0 <= i < j < ts.len() ==> (#[trigger] ts[i]).name@ != (#[trigger] ts[j]).name@
}

/// Every template's pixel buffer matches its size.
pub open spec fn templates_well_formed(ts: Seq<Template>) -> bool {
    forall|i: int| 0 <= i < ts.len() ==> (#[trigger] ts[i]).well_formed()
}

/// Index of the first template named `name`.
pub open spec fn template_index(ts: Seq<Template>, name: Seq<char>) -> Option<int> {
    if exists|i: int| 0 <= i < ts.len() && (#[trigger] ts[i]).name@ == name {
        Some(choose|i: int|
            0 <= i < ts.len() && ts[i].name@ == name && (forall|j: int| 0 <= j < i ==> (#[trigger] ts[j]).name@ != name))
    } else {
        None
    }
}

proof fn lemma_first_index(ts: Seq<Template>, name: Seq<char>, i: int)
    requires
        0 <= i < ts.len(),
        ts[i].name@ == name,
        forall|j: int| 0 <= j < i ==> (#[trigger] ts[j]).name@ != name,
    ensures
        template_index(ts, name) == Some(i),
{
    let k = choose|k: int|
        0 <= k < ts.len() && ts[k].name@ == name && (forall|j: int| 0 <= j < k ==> (#[trigger] ts[j]).name@ != name);
    assert(0 <= k < ts.len() && ts[k].name@ == name && (forall|j: int| 0 <= j < k ==> (#[trigger] ts[j]).name@ != name));
    if k < i {
        assert(ts[k].name@ != name);
    }
    if i < k {
        assert(ts[i].name@ != name);
    }
}

/// `a` sorts before `b`: code points compared one by one, a proper prefix
/// first (the order of `str`'s `Ord`).
pub open spec fn str_lt(a: Seq<char>, b: Seq<char>) -> bool
    decreases a.len(),
{
    if b.len() == 0 {
        false
    } else if a.len() == 0 {
        true
    } else if a[0] != b[0] {
        (a[0] as int) < (b[0] as int)
    } else {
        str_lt(a.drop_first(), b.drop_first())
    }
}

proof fn lemma_str_lt_total(a: Seq<char>, b: Seq<char>)
    requires
        a != b,
    ensures
        str_lt(a, b) || str_lt(b, a),
    decreases a.len(),
{
    if a.len() == 0 {
        if b.len() == 0 {
            assert(a =~= b);
        }
    } else if b.len() == 0 {
    } else if a[0] != b[0] {
        assert((a[0] as int) != (b[0] as int));
    } else {
        if a.drop_first() == b.drop_first() {
            assert(a =~= seq![a[0]] + a.drop_first());
            assert(b =~= seq![b[0]] + b.drop_first());
        }
        lemma_str_lt_total(a.drop_first(), b.drop_first());
    }
}

proof fn lemma_str_lt_skip(a: Seq<char>, b: Seq<char>, i: int)
    requires
        0 <= i <= a.len(),
        i <= b.len(),
        forall|k: int| 0 <= k < i ==> a[k] == b[k],
    ensures
        str_lt(a, b) == str_lt(a.skip(i), b.skip(i)),
    decreases i,
{
    if i > 0 {
        lemma_str_lt_skip(a.drop_first(), b.drop_first(), i - 1);
        assert(a.drop_first().skip(i - 1) =~= a.skip(i));
        assert(b.drop_first().skip(i - 1) =~= b.skip(i));
    } else {
        assert(a.skip(0) =~= a);
        assert(b.skip(0) =~= b);
    }
}

/// Whether `a` sorts before `b` (see `str_lt`).
pub fn str_less(a: &str, b: &str) -> (r: bool)
    ensures
        r == str_lt(a@, b@),
{
    let n = a.unicode_len();
    let m = b.unicode_len();
    let mut i: usize = 0;
    while i < n && i < m
        invariant
            n == a@.len(),
            m == b@.len(),
            i <= n,
            i <= m,
            forall|k: int| 0 <= k < i ==> a@[k] == b@[k],
        decreases n - i,
    {
        let ca = a.get_char(i);
        let cb = b.get_char(i);
        if ca != cb {
            proof {
                lemma_str_lt_skip(a@, b@, i as int);
                assert(a@.skip(i as int)[0] == ca);
                assert(b@.skip(i as int)[0] == cb);
            }
            return (ca as u32) < (cb as u32);
        }
        i = i + 1;
    }
    proof {
        lemma_str_lt_skip(a@, b@, i as int);
    }
    i == n && i < m
}

/// The name of template `k`.
pub open spec fn name_of(ts: Seq<Template>, k: int) -> Seq<char> {
    ts[k].name@
}

impl TemplateLibrary {
    /// The templates, in loading order.
    pub closed spec fn templates_view(&self) -> Seq<Template> {
        self.templates@
    }

    #[verifier::type_invariant]
    spec fn inv(&self) -> bool {
        &&& template_names_distinct(self.templates@)
        &&& templates_well_formed(self.templates@)
    }

    /// The library of `templates`; two templates with one name are a
    /// configuration error, a pixel buffer that does not match its size an
    /// image error.
    pub fn from_templates(templates: Vec<Template>) -> (r: Result<Self, BotError>)
        ensures
            match r {
                Ok(lib) => lib.templates_view() == templates@,
                Err(e) => !template_names_distinct(templates@) || !templates_well_formed(templates@),
            },
            r is Ok <==> template_names_distinct(templates@) && templates_well_formed(templates@),
            !template_names_distinct(templates@) ==> r matches Err(BotError::Config(ConfigError::DuplicateTemplate { .. })),
    {
        let mut j: usize = 0;
        while j < templates.len()
            invariant
                j <= templates@.len(),
                forall|a: int, b: int| 0 <= a < b < j ==> (#[trigger] templates@[a]).name@ != (#[trigger] templates@[b]).name@,
            decreases templates.len() - j,
        {
            let mut i: usize = 0;
            while i < j
                invariant
                    j < templates@.len(),
                    i <= j,
                    forall|a: int| 0 <= a < i ==> (#[trigger] templates@[a]).name@ != templates@[j as int].name@,
                decreases j - i,
            {
                if str_eq(templates[i].name.as_str(), templates[j].name.as_str()) {
                    return Err(BotError::Config(ConfigError::DuplicateTemplate { template: templates[j].name.clone() }));
                }
                i = i + 1;
            }
            j = j + 1;
        }
        let mut k: usize = 0;
        while k < templates.len()
            invariant
                k <= templates@.len(),
                template_names_distinct(templates@),
                forall|a: int| 0 <= a < k ==> (#[trigger] templates@[a]).well_formed(),
            decreases templates.len() - k,
        {
            let t = &templates[k];
            proof {
                assert(t.width as int * t.height as int <= u32::MAX as int * u32::MAX as int) by (nonlinear_arith);
            }
            if t.pixels.len() as u128 != t.width as u128 * t.height as u128 {
                return Err(BotError::Image(String::from_str("template pixel buffer does not match its size")));
            }
            k = k + 1;
        }
        Ok(TemplateLibrary { templates })
    }

    /// The templates, in loading order: distinct names, consistent buffers.
    pub fn templates(&self) -> (r: &Vec<Template>)
        ensures
            r@ == self.templates_view(),
            template_names_distinct(r@),
            templates_well_formed(r@),
    {
        proof {
            use_type_invariant(self);
        }
        &self.templates
    }

    /// The template indices ordered by name (ascending, as `str` sorts):
    /// every index once, each name before the next.
    pub fn name_order(&self) -> (r: Vec<usize>)
        ensures
            r@.len() == self.templates_view().len(),
            forall|p: int| 0 <= p < r@.len() ==> (#[trigger] r@[p]) < r@.len(),
            forall|p: int, q: int| 0 <= p < q < r@.len() ==> (#[trigger] r@[p]) != (#[trigger] r@[q]),
            forall|k: usize| k < r@.len() ==> #[trigger] r@.contains(k),
            forall|p: int, q: int|
                0 <= p && q == p + 1 && q < r@.len() ==> str_lt(
                    name_of(self.templates_view(), (#[trigger] r@[p]) as int),
                    name_of(self.templates_view(), (#[trigger] r@[q]) as int),
                ),
    {
        proof {
            use_type_invariant(self);
        }
        let ts = &self.templates;
        let n = ts.len();
        let mut order: Vec<usize> = Vec::new();
        let mut i: usize = 0;
        while i < n
            invariant
                n == ts@.len(),
                ts@ == self.templates_view(),
                template_names_distinct(ts@),
                i <= n,
                order@.len() == i,
                forall|p: int| 0 <= p < order@.len() ==> (#[trigger] order@[p]) < i,
                forall|p: int, q: int| 0 <= p < q < order@.len() ==> (#[trigger] order@[p]) != (#[trigger] order@[q]),
                forall|k: usize| k < i ==> #[trigger] order@.contains(k),
                forall|p: int, q: int|
                    0 <= p && q == p + 1 && q < order@.len() ==> str_lt(
                        name_of(ts@, (#[trigger] order@[p]) as int),
                        name_of(ts@, (#[trigger] order@[q]) as int),
                    ),
            decreases n - i,
        {
            let mut p: usize = 0;
            while p < order.len() && !str_less(ts[i].name.as_str(), ts[order[p]].name.as_str())
                invariant
                    n == ts@.len(),
                    i < n,
                    order@.len() == i,
                    forall|q: int| 0 <= q < order@.len() ==> (#[trigger] order@[q]) < i,
                    p <= order@.len(),
                    p == 0 || !str_lt(name_of(ts@, i as int), name_of(ts@, order@[p - 1] as int)),
                decreases order@.len() - p,
            {
                p = p + 1;
            }
            let ghost old_order = order@;
            proof {
                if p > 0 {
                    let prev = old_order[p - 1] as int;
                    assert(prev < i);
                    assert(ts@[prev].name@ != ts@[i as int].name@);
                    lemma_str_lt_total(name_of(ts@, i as int), name_of(ts@, prev));
                }
            }
            order.insert(p, i);
            proof {
                let no = order@;
                assert(no == old_order.insert(p as int, i));
                assert forall|a: int, b: int|
                    0 <= a && b == a + 1 && b < no.len() implies str_lt(
                    name_of(ts@, (#[trigger] no[a]) as int),
                    name_of(ts@, (#[trigger] no[b]) as int),
                ) by {
                    if b < p {
                        assert(no[a] == old_order[a] && no[b] == old_order[b]);
                    } else if b == p {
                        assert(no[a] == old_order[a]);
                    } else if a == p {
                        assert(no[b] == old_order[a]);
                    } else {
                        assert(no[a] == old_order[a - 1] && no[b] == old_order[b - 1]);
                    }
                }
                assert forall|k: usize| k < i + 1 implies #[trigger] no.contains(k) by {
                    if k == i {
                        assert(no[p as int] == i);
                    } else {
                        assert(old_order.contains(k));
                        let w = choose|w: int| 0 <= w < old_order.len() && old_order[w] == k;
                        if w < p {
                            assert(no[w] == k);
                        } else {
                            assert(no[w + 1] == k);
                        }
                    }
                }
                assert forall|a: int, b: int| 0 <= a < b < no.len() implies (#[trigger] no[a]) != (#[trigger] no[b]) by {
                    let oa = if a < p { a } else { a - 1 };
                    let ob = if b < p { b } else { b - 1 };
                    if a != p && b != p {
                        assert(no[a] == old_order[oa]);
                        assert(no[b] == old_order[ob]);
                    } else if a == p {
                        assert(no[b] == old_order[ob]);
                    } else {
                        assert(no[a] == old_order[oa]);
                    }
                }
                assert forall|q: int| 0 <= q < no.len() implies (#[trigger] no[q]) < i + 1 by {
                    if q < p {
                        assert(no[q] == old_order[q]);
                    } else if q > p {
                        assert(no[q] == old_order[q - 1]);
                    }
                }
            }
            i = i + 1;
        }
        order
    }

    /// The template named `name`, if any.
    pub fn get(&self, name: &str) -> (r: Option<&Template>)
        ensures
            match template_index(self.templates_view(), name@) {
                Some(i) => r == Some(&self.templates_view()[i]),
                None => r.is_none(),
            },
    {
        let mut i: usize = 0;
        while i < self.templates.len()
            invariant
                i <= self.templates.len(),
                forall|j: int| 0 <= j < i ==> (#[trigger] self.templates@[j]).name@ != name@,
            decreases self.templates.len() - i,
        {
            if str_eq(self.templates[i].name.as_str(), name) {
                proof {
                    lemma_first_index(self.templates@, name@, i as int);
                }
                return Some(&self.templates[i]);
            }
            i = i + 1;
        }
        None
    }

    /// The template named `name`, or `TemplateNotFound(name)`.
    pub fn require(&self, name: &str) -> (r: Result<&Template, BotError>)
        ensures
            match template_index(self.templates_view(), name@) {
                Some(i) => r == Ok::<&Template, BotError>(&self.templates_view()[i]),
                None => r matches Err(BotError::TemplateNotFound(s)) && s@ == name@,
            },
    {
        match self.get(name) {
            Some(t) => Ok(t),
            None => Err(BotError::TemplateNotFound(String::from_str(name))),
        }
    }

    /// The names of all templates, in library order.
    pub fn names(&self) -> (r: Vec<String>)
        ensures
            r@.len() == self.templates_view().len(),
            forall|i: int| 0 <= i < r@.len() ==> (#[trigger] r@[i])@ == self.templates_view()[i].name@,
    {
        let mut out: Vec<String> = Vec::new();
        let mut i: usize = 0;
        while i < self.templates.len()
            invariant
                i <= self.templates.len(),
                out@.len() == i,
                forall|j: int| 0 <= j < i ==> (#[trigger] out@[j])@ == self.templates@[j].name@,
            decreases self.templates.len() - i,
        {
            out.push(self.templates[i].name.clone());
            i = i + 1;
        }
        out
    }
}

/// Name for what decoding an image file's bytes gives, with the format
/// taken from the file name's extension (`image::ImageFormat::from_path`)
/// and `image::load_from_memory_with_format`, followed by
/// `DynamicImage::to_luma8`: the 8-bit grayscale pixels (row-major), the
/// width and the height; or the text of the error (an unknown extension
/// included).
pub uninterp spec fn decoded_luma8(bytes: Seq<u8>, file: Seq<char>) -> Result<(Seq<u8>, u32, u32), Seq<char>>;

/// Calls `image::ImageFormat::from_path`, `image::load_from_memory_with_format`
/// and `DynamicImage::to_luma8`. Trusted: the result is the named result
/// `decoded_luma8` of the bytes and the file name (an error as its
/// `Display` text).
#[verifier::external_body]
fn decode_luma8(bytes: &[u8], file: &str) -> (r: Result<(Vec<u8>, u32, u32), String>)
    ensures
        match r {
            Ok(v) => decoded_luma8(bytes@, file@) == Ok::<(Seq<u8>, u32, u32), Seq<char>>((v.0@, v.1, v.2)),
            Err(e) => decoded_luma8(bytes@, file@) == Err::<(Seq<u8>, u32, u32), Seq<char>>(e@),
        },
{
    let format = match image::ImageFormat::from_path(file) {
        Ok(f) => f,
        Err(e) => return Err(e.to_string()),
    };
    match image::load_from_memory_with_format(bytes, format) {
        Ok(img) => {
            let gray = img.to_luma8();
            let (w, h) = gray.dimensions();
            Ok((gray.into_raw(), w, h))
        },
        Err(e) => Err(e.to_string()),
    }
}

/// The template that a decoding result gives: the decoded grayscale
/// pixels and size with the configured threshold and ROI; a decoding
/// error, or a pixel buffer that does not match the size, is an image
/// error.
pub open spec fn template_of_decoded(
    name: Seq<char>,
    decoded: Result<(Seq<u8>, u32, u32), Seq<char>>,
    cfg: TemplateConfig,
    r: Result<Template, BotError>,
) -> bool {
    match decoded {
        Ok((p, w, h)) => if p.len() == w as int * h as int {
            &&& r matches Ok(t)
            &&& t.name@ == name
            &&& t.pixels@ == p
            &&& t.width == w
            &&& t.height == h
            &&& t.threshold == cfg.threshold
            &&& t.roi == cfg.roi
        } else {
            r matches Err(BotError::Image(_))
        },
        Err(e) => r matches Err(BotError::Image(m)) && m@ == e,
    }
}

/// Builds the template named `name` from a decoding result (see
/// `template_of_decoded`).
pub fn template_from_decoded(
    name: &str,
    decoded: Result<(Vec<u8>, u32, u32), String>,
    cfg: &TemplateConfig,
) -> (r: Result<Template, BotError>)
    ensures
        template_of_decoded(
            name@,
            match decoded {
                Ok(v) => Ok::<(Seq<u8>, u32, u32), Seq<char>>((v.0@, v.1, v.2)),
                Err(e) => Err::<(Seq<u8>, u32, u32), Seq<char>>(e@),
            },
            *cfg,
            r,
        ),
        r matches Ok(t) ==> t.well_formed(),
{
    match decoded {
        Ok((pixels, width, height)) => {
            proof {
                assert(width as int * height as int <= u32::MAX as int * u32::MAX as int) by (nonlinear_arith);
            }
            if pixels.len() as u128 != width as u128 * height as u128 {
                return Err(BotError::Image(String::from_str("decoded pixel buffer does not match the image size")));
            }
            Ok(Template { name: String::from_str(name), pixels, width, height, threshold: cfg.threshold, roi: cfg.roi })
        },
        Err(e) => Err(BotError::Image(e)),
    }
}

/// Decodes a template image file's bytes into the template named `name`,
/// with the configured threshold and ROI; the decoder is chosen by the
/// extension of the configured file name.
pub fn template_from_bytes(name: &str, bytes: &[u8], cfg: &TemplateConfig) -> (r: Result<Template, BotError>)
    ensures
        template_of_decoded(name@, decoded_luma8(bytes@, cfg.file@), *cfg, r),
        r matches Ok(t) ==> t.well_formed(),
{
    let decoded = decode_luma8(bytes, cfg.file.as_str());
    template_from_decoded(name, decoded, cfg)
}

} // verus!
