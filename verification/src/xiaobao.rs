//! The bespoke scraping adapter for the one site that serves plain HTML
//! pages instead of the shared CMS API: it builds the episode page URL,
//! pulls the embedded download URL out of the page with a fixed pattern,
//! and reads title and year out of two fixed DOM selections. A miss of
//! the pattern or of a selector is a recoverable parse error, never an
//! abort. Nothing is cached; the shell fetches every page anew.

use crate::errors::{ErrorView, MediaError};
use crate::text::{dec_rep, dec_val, parse_u32, u32_to_string};
use vstd::prelude::*;

verus! {

/// The DOM selector of the page's title element; the first match holds
/// the show's name.
pub const TITLE_SELECTOR: &'static str = ".title.text-fff";

/// The DOM selector of the player metadata entries; the last match holds
/// the release year.
pub const YEAR_SELECTOR: &'static str = ".myui-player__data > .text-muted > .text-muted";

/// The metadata scraped from one show's page.
pub struct SimpleTVShowMetadata {
    pub name: String,
    pub year: u32,
    pub total_episodes: u32,
}

/// What the fixed download-URL pattern captures in a page, if anything:
/// the escaped URL standing between the page's `url` and `url_next`
/// fields.
pub uninterp spec fn download_url_capture(html: Seq<char>) -> Option<Seq<char>>;

/// Captures the embedded download URL of a page.
///
/// Relies on `regex::Regex::captures` with the fixed pattern
/// `","url":"((\S)+)","url_next"`: the capture is a function of the page
/// text alone; a page without a match yields nothing.
#[verifier::external_body]
fn capture_download_url(html: &str) -> (r: Option<String>)
    ensures
        r is Some <==> download_url_capture(html@) is Some,
        r matches Some(s) ==> download_url_capture(html@) == Some(s@),
{
    let pattern = regex::Regex::new(r#"","url":"((\S)+)","url_next"#).ok()?;
    let caps = pattern.captures(html)?;
    Some(caps.get(1)?.as_str().to_string())
}

/// The text of the first element a DOM selector matches in a page, with
/// the element's text nodes concatenated in order.
pub uninterp spec fn first_selected_text(html: Seq<char>, selector: Seq<char>) -> Option<
    Seq<char>,
>;

/// The text of the last element a DOM selector matches in a page, with
/// the element's text nodes concatenated in order.
pub uninterp spec fn last_selected_text(html: Seq<char>, selector: Seq<char>) -> Option<Seq<char>>;

/// Reads the text of the first element the selector matches.
///
/// Relies on `scraper::Html::parse_document` and `Html::select`: the
/// selection is a function of the page and selector text alone; a
/// selector that parses but matches nothing, or does not parse, yields
/// nothing.
#[verifier::external_body]
fn select_first_text(html: &str, selector: &str) -> (r: Option<String>)
    ensures
        r is Some <==> first_selected_text(html@, selector@) is Some,
        r matches Some(s) ==> first_selected_text(html@, selector@) == Some(s@),
{
    let document = scraper::Html::parse_document(html);
    let sel = scraper::Selector::parse(selector).ok()?;
    let element = document.select(&sel).next()?;
    Some(element.text().collect::<String>())
}

/// Reads the text of the last element the selector matches.
///
/// Relies on `scraper::Html::parse_document` and `Html::select`: the
/// selection is a function of the page and selector text alone; a
/// selector that parses but matches nothing, or does not parse, yields
/// nothing.
#[verifier::external_body]
fn select_last_text(html: &str, selector: &str) -> (r: Option<String>)
    ensures
        r is Some <==> last_selected_text(html@, selector@) is Some,
        r matches Some(s) ==> last_selected_text(html@, selector@) == Some(s@),
{
    let document = scraper::Html::parse_document(html);
    let sel = scraper::Selector::parse(selector).ok()?;
    let element = document.select(&sel).last()?;
    Some(element.text().collect::<String>())
}

/// A DOM element's text, concatenated from its text nodes.
pub trait EasySelector {
    /// The concatenated text this element holds.
    spec fn text_rep(&self) -> Seq<char>;

    /// Concatenates the element's text nodes in order.
    fn inner_text(&self) -> (r: String)
        ensures
            r@ == self.text_rep(),
    ;
}

/// The text nodes of one selected element, in document order.
pub struct TextFragments {
    pub fragments: Vec<String>,
}

/// The concatenation of a run of text fragments, in order.
pub open spec fn concat_fragments(fs: Seq<String>) -> Seq<char>
    decreases fs.len(),
{
    if fs.len() == 0 {
        Seq::empty()
    } else {
        concat_fragments(fs.drop_last()) + fs.last()@
    }
}

impl EasySelector for TextFragments {
    open spec fn text_rep(&self) -> Seq<char> {
        concat_fragments(self.fragments@)
    }

    fn inner_text(&self) -> (r: String) {
        let n = self.fragments.len();
        let mut out = String::new();
        let mut i: usize = 0;
        while i < n
            invariant
                n == self.fragments@.len(),
                0 <= i <= n,
                out@ == concat_fragments(self.fragments@.take(i as int)),
            decreases n - i,
        {
            out.append(self.fragments[i].as_str());
            proof {
                assert(self.fragments@.take(i + 1).drop_last() =~= self.fragments@.take(i as int));
                assert(self.fragments@.take(i + 1).last() == self.fragments@[i as int]);
                assert(out@ =~= concat_fragments(self.fragments@.take(i + 1)));
            }
            i = i + 1;
        }
        assert(self.fragments@.take(n as int) =~= self.fragments@);
        out
    }
}

/// The download URL with the page's escaping undone: every `\/` pair
/// reads as one `/`.
pub open spec fn unescaped_url(s: Seq<char>) -> Seq<char>
    decreases s.len(),
{
    if s.len() >= 2 && s[0] == '\\' && s[1] == '/' {
        seq!['/'] + unescaped_url(s.skip(2))
    } else if s.len() >= 1 {
        seq![s[0]] + unescaped_url(s.skip(1))
    } else {
        Seq::empty()
    }
}

/// Undoes the page's URL escaping: every `\/` pair becomes one `/`.
pub fn unescape_url(s: &str) -> (r: String)
    ensures
        r@ == unescaped_url(s@),
{
    let n = s.unicode_len();
    let mut out = String::new();
    let mut i: usize = 0;
    proof {
        assert(s@.skip(0) =~= s@);
    }
    while i < n
        invariant
            n == s@.len(),
            0 <= i <= n,
            unescaped_url(s@) == out@ + unescaped_url(s@.skip(i as int)),
        decreases n - i,
    {
        let c = s.get_char(i);
        if c == '\\' && i + 1 < n && s.get_char(i + 1) == '/' {
            out.append("/");
            proof {
                reveal_strlit("/");
                assert(s@.skip(i as int)[0] == s@[i as int]);
                assert(s@.skip(i as int)[1] == s@[i + 1]);
                assert(s@.skip(i as int).skip(2) =~= s@.skip(i + 2));
                assert(unescaped_url(s@.skip(i as int)) == seq!['/'] + unescaped_url(
                    s@.skip(i + 2),
                ));
                assert("/"@ =~= seq!['/']);
            }
            i = i + 2;
        } else {
            let frag = s.substring_char(i, i + 1);
            out.append(frag);
            proof {
                assert(s@.skip(i as int)[0] == s@[i as int]);
                assert(s@.skip(i as int).skip(1) =~= s@.skip(i + 1));
                if s@.skip(i as int).len() >= 2 && s@.skip(i as int)[0] == '\\' && s@.skip(
                    i as int,
                )[1] == '/' {
                    assert(false);
                }
                assert(unescaped_url(s@.skip(i as int)) == seq![s@[i as int]] + unescaped_url(
                    s@.skip(i + 1),
                ));
                assert(frag@ =~= seq![s@[i as int]]);
            }
            i = i + 1;
        }
    }
    assert(s@.skip(n as int) =~= Seq::<char>::empty());
    assert(out@ =~= unescaped_url(s@));
    out
}

/// The scraping adapter for one host.
pub struct XiaobaoTV {
    pub host: String,
}

impl XiaobaoTV {
    /// An adapter scraping the given host.
    pub fn new(host: &str) -> (s: Self)
        ensures
            s.host@ == host@,
    {
        XiaobaoTV { host: host.to_owned() }
    }

    /// The channel name this adapter serves.
    pub fn channel_name(&self) -> (n: &'static str)
        ensures
            n@ == "xiaobao"@,
    {
        "xiaobao"
    }

    /// The page URL of one episode of one show on this host.
    pub fn tv_show_web_page_url(&self, tv_show_id: &str, tv_show_episode_number: u32) -> (r:
        String)
        ensures
            r@ == "https://"@ + self.host@ + "/index.php/vod/play/id/"@ + tv_show_id@ + "/sid/1/nid/"@
                + dec_rep(tv_show_episode_number as nat) + ".html"@,
    {
        let mut out = String::from_str("https://");
        out.append(self.host.as_str());
        out.append("/index.php/vod/play/id/");
        out.append(tv_show_id);
        out.append("/sid/1/nid/");
        let ep = u32_to_string(tv_show_episode_number);
        out.append(ep.as_str());
        out.append(".html");
        assert(out@ =~= "https://"@ + self.host@ + "/index.php/vod/play/id/"@ + tv_show_id@
            + "/sid/1/nid/"@ + dec_rep(tv_show_episode_number as nat) + ".html"@);
        out
    }

    /// Extracts the embedded download URL from an episode page, undoing
    /// the page's escaping. A page without the pattern is a recoverable
    /// parse error.
    pub fn extract_download_url_from_web_page_html(&self, web_page_html: &str) -> (r: Result<
        String,
        MediaError,
    >)
        ensures
            r is Ok <==> download_url_capture(web_page_html@) is Some,
            r matches Ok(u) ==> u@ == unescaped_url(download_url_capture(web_page_html@)->0),
            r matches Err(e) ==> e@ matches ErrorView::Parse { message: m } && m
                == "download url not found in page"@,
    {
        match capture_download_url(web_page_html) {
            Option::Some(raw) => Ok(unescape_url(raw.as_str())),
            Option::None => Err(MediaError::parse_error("download url not found in page")),
        }
    }

    /// Extracts title and year from a show's page: the title is the text
    /// of the first title-selector match, the year is the text of the
    /// last year-selector match read as a decimal number. A missing
    /// element or a year that is not a number is a recoverable parse
    /// error. Episode counting is not implemented: the count is zero.
    pub fn extract_tv_show_metadata_from_web_page(&self, tv_show_web_page_html: &str) -> (r:
        Result<SimpleTVShowMetadata, MediaError>)
        ensures
            ({
                let title = first_selected_text(tv_show_web_page_html@, TITLE_SELECTOR@);
                let year_text = last_selected_text(tv_show_web_page_html@, YEAR_SELECTOR@);
                &&& r is Ok <==> (title is Some && year_text is Some && year_text->0.len() > 0
                    && crate::text::all_digits(year_text->0) && dec_val(year_text->0)
                    <= u32::MAX)
                &&& r matches Ok(m) ==> (m.name@ == title->0 && m.year == dec_val(year_text->0)
                    && m.total_episodes == 0)
                &&& r matches Err(e) ==> e@ matches ErrorView::Parse { message: msg } && (msg
                    == "tv show metadata not found in page"@ || msg
                    == "tv show year is not a number"@)
            }),
    {
        let title = match select_first_text(tv_show_web_page_html, TITLE_SELECTOR) {
            Option::Some(t) => t,
            Option::None => {
                return Err(MediaError::parse_error("tv show metadata not found in page"));
            },
        };
        let year_text = match select_last_text(tv_show_web_page_html, YEAR_SELECTOR) {
            Option::Some(y) => y,
            Option::None => {
                return Err(MediaError::parse_error("tv show metadata not found in page"));
            },
        };
        let year = match parse_u32(year_text.as_str()) {
            Option::Some(y) => y,
            Option::None => {
                return Err(MediaError::parse_error("tv show year is not a number"));
            },
        };
        Ok(SimpleTVShowMetadata { name: title, year, total_episodes: 0 })
    }
}

impl XiaobaoTV {
    /// The metadata served for one show: the scraped fields under this
    /// adapter's channel name and the requested id.
    pub fn tv_show_metadata(&self, tv_show_id: &str, scraped: &SimpleTVShowMetadata) -> (m:
        crate::protocol::TVShowMetadata)
        ensures
            m.channel@ == "xiaobao"@,
            m.id@ == tv_show_id@,
            m.name@ == scraped.name@,
            m.year == scraped.year,
            m.total_episodes == scraped.total_episodes,
    {
        crate::protocol::TVShowMetadata {
            channel: String::from_str(self.channel_name()),
            id: tv_show_id.to_owned(),
            name: scraped.name.clone(),
            year: scraped.year,
            total_episodes: scraped.total_episodes,
        }
    }
}

/// Extraction of scraped show metadata from a parsed page.
pub trait SimpleTVShowMetadataExtractor {
    /// Extracts the scraped metadata, failing recoverably when the page
    /// does not carry it.
    fn extract_tv_show_metadata(&self) -> Result<SimpleTVShowMetadata, MediaError>;
}

/// An episode page fetched from the host, held as text.
pub struct WebPage {
    pub html: String,
}

impl SimpleTVShowMetadataExtractor for WebPage {
    fn extract_tv_show_metadata(&self) -> Result<SimpleTVShowMetadata, MediaError> {
        let adapter = XiaobaoTV::new("");
        adapter.extract_tv_show_metadata_from_web_page(self.html.as_str())
    }
}

} // verus!
