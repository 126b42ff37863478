//! Page previews of new articles: image, description and site name.
use vstd::prelude::*;
use crate::entry::{clean_html, sanitize_html, view_opt};
use crate::models::Article;
use crate::store::Store;
use crate::text::{begins_with, starts_with, views};
use vstd::utf8::encode_utf8;

verus! {

/// The preview fields of a page; any of them may be missing.
#[derive(Clone, Debug)]
pub struct PagePreview {
    pub og_image: Option<String>,
    pub og_description: Option<String>,
    pub og_site_name: Option<String>,
}

/// The OpenGraph data of a page as the parser found it: every image URL,
/// and the description and site name properties.
#[derive(Clone, Debug)]
pub struct RawOpengraph {
    pub images: Vec<String>,
    pub description: Option<String>,
    pub site_name: Option<String>,
}

/// What `webpage::HTML::from_string` finds in a page: its OpenGraph image
/// URLs, description and site name, or nothing where the page cannot be read.
pub uninterp spec fn opengraph_of(html: Seq<char>, url: Seq<char>) -> Option<(Seq<Seq<char>>, Option<Seq<char>>, Option<Seq<char>>)>;

/// Pages that the parser reads without panicking: bytes from 1 to 127 and no
/// `&`. Its OpenGraph code slices a property name after `og:image`,
/// `og:video` or `og:audio` at a fixed byte offset, which panics when that
/// offset falls inside a multi-byte character; with these bytes no attribute
/// value can hold one, not even through a character reference or a NUL.
pub open spec fn parser_safe(html: Seq<char>) -> bool {
    forall|i: int| 0 <= i < encode_utf8(html).len() ==> 0 < #[trigger] encode_utf8(html)[i] < 128 && encode_utf8(html)[i] != 38
}

/// Tests a page for `parser_safe`.
pub fn is_parser_safe(html: &str) -> (r: bool)
    ensures
        r == parser_safe(html@),
{
    let b = html.as_bytes();
    let mut i: usize = 0;
    while i < b.len()
        invariant
            b@ == encode_utf8(html@),
            i <= b@.len(),
            forall|j: int| 0 <= j < i ==> 0 < #[trigger] b@[j] < 128 && b@[j] != 38,
        decreases b@.len() - i,
    {
        let c = b[i];
        if c == 0 || c >= 128 || c == 38 {
            return false;
        }
        i += 1;
    }
    true
}

/// Relies on `webpage::HTML::from_string`: the OpenGraph image URLs and the
/// `og:description` and `og:site_name` properties (which the crate keeps
/// under `description` and `site_name`) of a page; `None` where the page
/// cannot be read. The result depends on the two strings alone.
#[verifier::external_body]
fn opengraph_fields(html: &str, url: &str) -> (r: Option<RawOpengraph>)
    requires
        parser_safe(html@),
    ensures
        match r {
            Some(g) => opengraph_of(html@, url@) == Some((views(g.images@), view_opt(g.description), view_opt(g.site_name))),
            None => opengraph_of(html@, url@) is None,
        },
{
    match webpage::HTML::from_string(html.to_string(), Some(url.to_string())) {
        Ok(page) => Some(RawOpengraph {
            images: page.opengraph.images.iter().map(|i| i.url.clone()).collect(),
            description: page.opengraph.properties.get("description").cloned(),
            site_name: page.opengraph.properties.get("site_name").cloned(),
        }),
        Err(_) => None,
    }
}

/// An image URL that may be shown: http or https only, which keeps out
/// `javascript:` and `data:` URLs.
pub open spec fn safe_image(u: Seq<char>) -> bool {
    begins_with(u, "http://"@) || begins_with(u, "https://"@)
}

/// Keeps an image URL only if it is http or https.
pub fn safe_image_url(u: Option<String>) -> (r: Option<String>)
    ensures
        match u {
            Some(s) => if safe_image(s@) {
                r == Some(s)
            } else {
                r is None
            },
            None => r is None,
        },
{
    match u {
        Some(s) => {
            if starts_with(s.as_str(), "http://") || starts_with(s.as_str(), "https://") {
                Some(s)
            } else {
                None
            }
        },
        None => None,
    }
}

fn sanitize_opt(o: Option<String>) -> (r: Option<String>)
    ensures
        view_opt(r) == cleaned(view_opt(o)),
{
    match o {
        Some(s) => Some(sanitize_html(s.as_str())),
        None => None,
    }
}

/// The sanitized form of optional text.
pub open spec fn cleaned(o: Option<Seq<char>>) -> Option<Seq<char>> {
    match o {
        Some(s) => Some(clean_html(s)),
        None => None,
    }
}

/// The preview that may be stored for what a page holds: its first image if
/// that is http or https, and description and site name with unsafe markup
/// removed.
pub open spec fn preview_from(images: Seq<Seq<char>>, description: Option<Seq<char>>, site_name: Option<Seq<char>>, p: PagePreview) -> bool {
    &&& (if images.len() > 0 && safe_image(images[0]) {
        view_opt(p.og_image) == Some(images[0])
    } else {
        p.og_image is None
    })
    &&& view_opt(p.og_description) == cleaned(description)
    &&& view_opt(p.og_site_name) == cleaned(site_name)
}

/// Makes what the parser found on a page safe to store.
pub fn clean_preview(raw: RawOpengraph) -> (r: PagePreview)
    ensures
        preview_from(views(raw.images@), view_opt(raw.description), view_opt(raw.site_name), r),
{
    let image = if raw.images.len() > 0 {
        safe_image_url(Some(raw.images[0].clone()))
    } else {
        None
    };
    PagePreview {
        og_image: image,
        og_description: sanitize_opt(raw.description),
        og_site_name: sanitize_opt(raw.site_name),
    }
}

/// The preview of a fetched page, made safe to store. A page that cannot be
/// read, or that the parser could not read safely, has an empty preview.
pub fn extract_page_preview(html: &str, url: &str) -> (r: PagePreview)
    ensures
        !parser_safe(html@) ==> !has_any(r),
        parser_safe(html@) ==> match opengraph_of(html@, url@) {
            Some((images, description, site_name)) => preview_from(images, description, site_name, r),
            None => !has_any(r),
        },
{
    if !is_parser_safe(html) {
        return PagePreview { og_image: None, og_description: None, og_site_name: None };
    }
    match opengraph_fields(html, url) {
        Some(raw) => clean_preview(raw),
        None => PagePreview { og_image: None, og_description: None, og_site_name: None },
    }
}

/// Whether the preview found anything at all.
pub open spec fn has_any(p: PagePreview) -> bool {
    p.og_image is Some || p.og_description is Some || p.og_site_name is Some
}

/// `new` where given, else `old`.
pub open spec fn coalesce(new: Option<String>, old: Option<String>) -> Option<String> {
    match new {
        Some(v) => Some(v),
        None => old,
    }
}

impl Store {
    /// Adds a page preview to article `article_id`: each field that was
    /// found replaces the stored one. Gives whether the article was changed:
    /// not when the preview is empty or there is no such article.
    pub fn update_article_enrichment(&mut self, article_id: i64, p: PagePreview) -> (r: bool)
        requires
            old(self).wf(),
        ensures
            final(self).wf(),
            final(self).feeds == old(self).feeds,
            final(self).logs == old(self).logs,
            r == (has_any(p) && 1 <= article_id <= old(self).articles@.len()),
            !r ==> final(self).articles == old(self).articles,
            r ==> ({
                let k = article_id - 1;
                let a = old(self).articles@[k];
                final(self).articles@ == old(self).articles@.update(k, Article {
                    og_image: coalesce(p.og_image, a.og_image),
                    og_description: coalesce(p.og_description, a.og_description),
                    og_site_name: coalesce(p.og_site_name, a.og_site_name),
                    ..a
                })
            }),
    {
        if !(p.og_image.is_some() || p.og_description.is_some() || p.og_site_name.is_some()) {
            return false;
        }
        if article_id < 1 || article_id as u64 > self.articles.len() as u64 {
            return false;
        }
        let k = (article_id - 1) as usize;
        let ghost before = self.articles@;
        if let Some(v) = p.og_image {
            self.articles[k].og_image = Some(v);
        }
        if let Some(v) = p.og_description {
            self.articles[k].og_description = Some(v);
        }
        if let Some(v) = p.og_site_name {
            self.articles[k].og_site_name = Some(v);
        }
        proof {
            assert forall|i: int, j: int|
                0 <= i < self.articles@.len() && 0 <= j < self.articles@.len() && i != j
                    && self.articles@[i].feed_id == self.articles@[j].feed_id implies #[trigger] self.articles@[i].guid@
                    != #[trigger] self.articles@[j].guid@ by {
                assert(self.articles@[i].guid == before[i].guid && self.articles@[j].guid == before[j].guid);
                assert(self.articles@[i].feed_id == before[i].feed_id && self.articles@[j].feed_id == before[j].feed_id);
            }
            assert forall|i: int| 0 <= i < self.articles@.len() implies #[trigger] self.articles@[i].id == i + 1 by {
                assert(self.articles@[i].id == before[i].id);
            }
        }
        true
    }
}

} // verus!
