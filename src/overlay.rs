use vstd::prelude::*;

use std::collections::HashMap;

use crate::text::same_text;

verus! {

/// Placeholder that receives the style sheet.
pub const STYLE_KEY: &'static str = "css_buffer";
/// Placeholder that receives the primary logo, as a data URI.
pub const LOGO_PRIMARY_KEY: &'static str = "igalia_logo";
/// Placeholder that receives the secondary logo, as a data URI.
pub const LOGO_SECONDARY_KEY: &'static str = "gst_logo";

/// Base64 text of some bytes, in the standard alphabet with padding.
pub uninterp spec fn base64_of(b: Seq<u8>) -> Seq<char>;

/// Relies on `base64::encode`: the standard, padded encoding, four characters
/// for each started group of three bytes. It panics only when that length
/// overflows `usize`.
#[verifier::external_body]
fn encode_base64(b: &[u8]) -> (r: String)
    requires
        b@.len() <= usize::MAX / 2,
    ensures
        r@ == base64_of(b@),
        r@.len() == 4 * ((b@.len() + 2) / 3),
{
    base64::encode(b)
}

#[verifier::external_type_specification]
#[verifier::external_body]
pub struct ExFmtError(strfmt::FmtError);

/// The characters of each (name, value) pair.
pub open spec fn pairs_view(v: Seq<(String, String)>) -> Seq<(Seq<char>, Seq<char>)> {
    v.map_values(|p: (String, String)| (p.0@, p.1@))
}

/// Value bound to `key`; a later binding hides an earlier one.
pub open spec fn lookup(vars: Seq<(Seq<char>, Seq<char>)>, key: Seq<char>) -> Option<Seq<char>>
    decreases vars.len(),
{
    if vars.len() == 0 {
        None
    } else if vars.last().0 == key {
        Some(vars.last().1)
    } else {
        lookup(vars.drop_last(), key)
    }
}

/// `s` holds neither `{` nor `}`.
pub open spec fn brace_free(s: Seq<char>) -> bool {
    forall|i: int| 0 <= i < s.len() ==> s[i] != '{' && s[i] != '}'
}

/// `k` can name a placeholder on its own: not empty, without braces and
/// without a format specification.
pub open spec fn plain_key(k: Seq<char>) -> bool {
    &&& k.len() > 0
    &&& brace_free(k)
    &&& forall|i: int| 0 <= i < k.len() ==> k[i] != ':'
}

/// `t` is literal text around exactly one placeholder `{key}`.
pub open spec fn one_placeholder(t: Seq<char>, pre: Seq<char>, key: Seq<char>, post: Seq<char>) -> bool {
    &&& brace_free(pre)
    &&& plain_key(key)
    &&& brace_free(post)
    &&& t == pre + seq!['{'] + key + seq!['}'] + post
}

/// What `strfmt::strfmt` makes of a template and a set of bindings; `None`
/// where it fails.
pub uninterp spec fn strfmt_of(template: Seq<char>, vars: Seq<(Seq<char>, Seq<char>)>) -> Option<Seq<char>>;

/// Relies on `strfmt::strfmt`, with the pairs collected into a `HashMap`:
/// each `{name}` is replaced by the value bound to `name`, and a name that
/// is not bound is an error. Text without braces is copied as it is.
#[verifier::external_body]
fn format_template(template: &str, vars: &Vec<(String, String)>) -> (r: Result<String, strfmt::FmtError>)
    ensures
        r is Ok <==> strfmt_of(template@, pairs_view(vars@)) is Some,
        r is Ok ==> r->Ok_0@ == strfmt_of(template@, pairs_view(vars@))->0,
        brace_free(template@) ==> r is Ok && r->Ok_0@ == template@,
        forall|pre: Seq<char>, key: Seq<char>, post: Seq<char>|
            #[trigger] one_placeholder(template@, pre, key, post) ==> match lookup(pairs_view(vars@), key) {
                Some(v) => r is Ok && r->Ok_0@ == pre + v + post,
                None => r is Err,
            },
{
    let map: HashMap<String, String> = vars.iter().cloned().collect();
    strfmt::strfmt(template, &map)
}

/// Why an overlay document could not be rendered.
#[derive(Debug, Clone, Copy, PartialEq, Eq, Structural)]
pub enum OverlayError {
    /// The markup is malformed or names a placeholder outside the
    /// recognized set.
    Template,
}

/// A `data:` URI that embeds `bytes` in base64.
pub open spec fn spec_data_uri(mime: Seq<char>, bytes: Seq<u8>) -> Seq<char> {
    "data:"@ + mime + ";base64,"@ + base64_of(bytes)
}

/// Embeds `bytes` in a `data:` URI of the given media type.
pub fn data_uri(mime: &str, bytes: &[u8]) -> (r: String)
    requires
        bytes@.len() <= usize::MAX / 2,
    ensures
        r@ == spec_data_uri(mime@, bytes@),
{
    let encoded = encode_base64(bytes);
    let r = String::from_str("data:").concat(mime).concat(";base64,").concat(encoded.as_str());
    proof {
        assert(r@ =~= spec_data_uri(mime@, bytes@));
    }
    r
}

/// The bindings offered to the markup template.
pub open spec fn spec_overlay_vars(css: Seq<char>, logo_primary: Seq<u8>, logo_secondary: Seq<u8>) -> Seq<(Seq<char>, Seq<char>)> {
    seq![
        ("css_buffer"@, css),
        ("igalia_logo"@, spec_data_uri("image/png"@, logo_primary)),
        ("gst_logo"@, spec_data_uri("image/svg+xml"@, logo_secondary)),
    ]
}

/// The document that `render_overlay` gives, `None` where rendering fails.
pub open spec fn spec_render(html: Seq<char>, css: Seq<char>, logo_primary: Seq<u8>, logo_secondary: Seq<u8>) -> Option<Seq<char>> {
    strfmt_of(html, spec_overlay_vars(css, logo_primary, logo_secondary))
}

/// Renders the overlay document from the markup template `html`: the
/// placeholders of the style sheet and of the two logos are replaced by
/// `css` and by the logos embedded as `data:` URIs (PNG, then SVG).
pub fn render_overlay(html: &str, css: &str, logo_primary: &[u8], logo_secondary: &[u8]) -> (r: Result<String, OverlayError>)
    requires
        logo_primary@.len() <= usize::MAX / 2,
        logo_secondary@.len() <= usize::MAX / 2,
    ensures
        r is Ok <==> spec_render(html@, css@, logo_primary@, logo_secondary@) is Some,
        r is Ok ==> r->Ok_0@ == spec_render(html@, css@, logo_primary@, logo_secondary@)->0,
        r is Err ==> r == Err::<String, OverlayError>(OverlayError::Template),
        brace_free(html@) ==> r is Ok && r->Ok_0@ == html@,
        forall|pre: Seq<char>, key: Seq<char>, post: Seq<char>|
            #[trigger] one_placeholder(html@, pre, key, post) ==> match lookup(spec_overlay_vars(css@, logo_primary@, logo_secondary@), key) {
                Some(v) => r is Ok && r->Ok_0@ == pre + v + post,
                None => r is Err,
            },
{
    let png = data_uri("image/png", logo_primary);
    let svg = data_uri("image/svg+xml", logo_secondary);
    let mut vars: Vec<(String, String)> = Vec::new();
    vars.push((String::from_str(STYLE_KEY), String::from_str(css)));
    vars.push((String::from_str(LOGO_PRIMARY_KEY), png));
    vars.push((String::from_str(LOGO_SECONDARY_KEY), svg));
    proof {
        assert(pairs_view(vars@) =~= spec_overlay_vars(css@, logo_primary@, logo_secondary@));
    }
    match format_template(html, &vars) {
        Ok(doc) => Ok(doc),
        Err(_) => Err(OverlayError::Template),
    }
}

/// Selector label of the style sheet buffer.
pub const CSS_LABEL: &'static str = "CSS";
/// Selector label of the markup buffer.
pub const HTML_LABEL: &'static str = "HTML";

/// The overlay's two text blobs, as the user last stored them. The graph
/// never reads them on its own: they are rendered and pushed explicitly.
#[derive(Debug, Clone)]
pub struct OverlayContent {
    pub css: String,
    pub html: String,
}

impl OverlayContent {
    pub fn new(css: String, html: String) -> (r: OverlayContent)
        ensures
            r.css == css,
            r.html == html,
    {
        OverlayContent { css, html }
    }

    /// Stores edited text into the buffer being edited: the style sheet
    /// when the selector reads `CSS`, the markup for any other label, and
    /// nothing when no buffer is being edited.
    pub fn store_edit(&mut self, editing: Option<&str>, data: String)
        ensures
            editing is None ==> *final(self) == *old(self),
            editing is Some && editing->0@ == CSS_LABEL@ ==> final(self).css == data && final(self).html == old(self).html,
            editing is Some && editing->0@ != CSS_LABEL@ ==> final(self).html == data && final(self).css == old(self).css,
    {
        match editing {
            None => {},
            Some(label) => {
                if same_text(label, CSS_LABEL) {
                    self.css = data;
                } else {
                    self.html = data;
                }
            },
        }
    }

    /// The buffer to show for a selector label: the style sheet for `CSS`,
    /// the markup otherwise.
    pub fn text_for(&self, selection: &str) -> (r: &String)
        ensures
            selection@ == CSS_LABEL@ ==> *r == self.css,
            selection@ != CSS_LABEL@ ==> *r == self.html,
    {
        if same_text(selection, CSS_LABEL) {
            &self.css
        } else {
            &self.html
        }
    }
}

} // verus!
