//! The page model: the closed set of content variants shown in the main
//! display region, the banner text, the vertical-centering padding of
//! the text page, and the per-frame fallback of the externally loaded
//! page.

use vstd::prelude::*;

verus! {

/// The content variants of the main display region.
#[derive(Debug)]
pub enum Page {
    /// Immutable informational text, shown framed and centered.
    Text(Vec<String>),
    /// The banner text painted twice, into two side-by-side panes.
    Example,
    /// Text loaded from an external resource at render time.
    ForgiveMePlease,
}

/// The mathematical value of a `Page`; the text variant carries its
/// lines as sequences of characters.
pub enum PageV {
    Text(Seq<Seq<char>>),
    Example,
    ForgiveMePlease,
}

impl View for Page {
    type V = PageV;

    open spec fn view(&self) -> PageV {
        match self {
            Page::Text(lines) => PageV::Text(lines.deep_view()),
            Page::Example => PageV::Example,
            Page::ForgiveMePlease => PageV::ForgiveMePlease,
        }
    }
}

/// The lines of the banner text.
pub open spec fn spec_intro_lines() -> Seq<Seq<char>> {
    seq![
        "CFUVRand - CFU Vernandskogo Randomizer"@,
        ""@,
        "version 0.1.0"@,
        "CFUVRand is open source and freely distributable"@,
    ]
}

/// Builds the banner text that the default page shows.
pub fn intro_text() -> (t: Vec<String>)
    ensures
        t.deep_view() == spec_intro_lines(),
{
    let t: Vec<String> = vec![
        "CFUVRand - CFU Vernandskogo Randomizer".to_owned(),
        "".to_owned(),
        "version 0.1.0".to_owned(),
        "CFUVRand is open source and freely distributable".to_owned(),
    ];
    proof {
        assert(t.deep_view() =~~= spec_intro_lines());
    }
    t
}

impl Default for Page {
    /// The default page shows the banner text.
    fn default() -> (r: Page)
        ensures
            r@ == PageV::Text(spec_intro_lines()),
    {
        Page::Text(intro_text())
    }
}

/// The vertical padding of the text page: half the height left over
/// once the content (clamped to the cell range) is placed, so equal
/// top and bottom padding centers a short content block. The
/// subtraction saturates at zero when the content fills the region.
/// The frame's own border rows are not subtracted: the page's border
/// paints glyphs only on the left and bottom edges.
pub open spec fn spec_vertical_pad(lines: nat, region_height: u16) -> int {
    let content = if lines > u16::MAX as nat {
        u16::MAX as int
    } else {
        lines as int
    };
    if region_height as int >= content {
        (region_height as int - content) / 2
    } else {
        0
    }
}

/// Law: the centering padding saturates instead of underflowing — it
/// is never negative, never exceeds half the region height, and is
/// exactly zero once the content height reaches the region height.
pub proof fn lemma_vertical_pad_saturates(lines: nat, region_height: u16)
    ensures
        0 <= spec_vertical_pad(lines, region_height) <= region_height as int / 2,
        lines >= region_height ==> spec_vertical_pad(lines, region_height) == 0,
{
}

/// Computes the padding that the text page puts above and below its
/// content to center it inside a region of height `height`; the
/// subtraction saturates at zero, so a content taller than the region
/// never underflows the padding.
pub fn vertical_center(text: &Vec<String>, height: u16) -> (pad: u16)
    ensures
        pad as int == spec_vertical_pad(text@.len(), height),
{
    let content: u16 = if text.len() > u16::MAX as usize {
        u16::MAX
    } else {
        text.len() as u16
    };
    if height >= content {
        (height - content) / 2
    } else {
        0
    }
}

/// Decides what the externally loaded page shows for one frame: the
/// loaded lines when the load succeeded, or the banner text when it
/// failed. The flag says whether a diagnostic is owed for the failure;
/// the stored page itself is never changed by a failed load.
pub fn external_page_lines(loaded: Option<Vec<String>>) -> (r: (Vec<String>, bool))
    ensures
        loaded matches Some(lines) ==> r.0.deep_view() == lines.deep_view() && !r.1,
        loaded is None ==> r.0.deep_view() == spec_intro_lines() && r.1,
{
    match loaded {
        Some(lines) => (lines, false),
        None => (intro_text(), true),
    }
}

/// The fixed read-only indicator shown in the bottom row while the
/// command line is not active.
pub fn status_line() -> (s: String)
    ensures
        s@ == "0,0-1     All"@,
{
    "0,0-1     All".to_owned()
}

} // verus!
