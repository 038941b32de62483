//! Frame layout and the static widgets: the runtime splits every frame into
//! a context band and a content band, and the context band into
//! context-info, keybinding-legend and logo sub-regions. The arithmetic is
//! verified here; painting into the computed regions happens outside the
//! library.

use vstd::prelude::*;

verus! {

/// A rectangular region of the terminal, in cells.
#[derive(Clone, Copy, Debug, PartialEq, Eq, Structural)]
pub struct Rect {
    pub x: u16,
    pub y: u16,
    pub width: u16,
    pub height: u16,
}

/// A region is addressable only when its far corner still fits the
/// terminal's coordinate space.
pub open spec fn rect_fits(area: Rect) -> bool {
    &&& area.x + area.width <= u16::MAX
    &&& area.y + area.height <= u16::MAX
}

/// The rounded-down share of `len` that a percentage takes.
pub open spec fn percent_of(len: int, percent: int) -> int {
    len * percent / 100
}

/// Computes the rounded-down percentage share of a length.
fn percent_len(len: u16, percent: u16) -> (share: u16)
    requires
        percent <= 100,
    ensures
        share == percent_of(len as int, percent as int),
        share <= len,
{
    proof {
        assert(len * percent <= 65535 * 100) by (nonlinear_arith)
            requires
                0 <= len <= 65535,
                0 <= percent <= 100,
        ;
    }
    let share32: u32 = (len as u32) * (percent as u32) / 100;
    proof {
        assert(len * percent <= len * 100) by (nonlinear_arith)
            requires
                0 <= len,
                percent <= 100,
        ;
        assert(len * percent / 100 <= len * 100 / 100) by (nonlinear_arith)
            requires
                len * percent <= len * 100,
        ;
        assert(len * 100 / 100 == len) by (nonlinear_arith);
    }
    share32 as u16
}

/// Splits the frame vertically into the top context band (20% of the
/// height, rounded down) and the bottom content band (the rest). The bands
/// share the frame's full width, stack without gap or overlap, and exactly
/// cover the frame.
pub fn split_frame(area: Rect) -> (bands: (Rect, Rect))
    requires
        rect_fits(area),
    ensures
        bands.0.x == area.x && bands.0.y == area.y && bands.0.width == area.width,
        bands.0.height == percent_of(area.height as int, 20),
        bands.1.x == area.x && bands.1.y == area.y + bands.0.height && bands.1.width
            == area.width,
        bands.1.height == area.height - bands.0.height,
        rect_fits(bands.0) && rect_fits(bands.1),
{
    let context_height = percent_len(area.height, 20);
    let context = Rect { x: area.x, y: area.y, width: area.width, height: context_height };
    let content = Rect {
        x: area.x,
        y: area.y + context_height,
        width: area.width,
        height: area.height - context_height,
    };
    (context, content)
}

/// Splits the context band horizontally into the context-info region (40%
/// of the width), the keybinding-legend region (10%), and the logo region
/// (the rest). The regions share the band's full height, sit side by side
/// without gap or overlap, and exactly cover the band.
pub fn split_context(area: Rect) -> (regions: (Rect, Rect, Rect))
    requires
        rect_fits(area),
    ensures
        regions.0.y == area.y && regions.0.height == area.height,
        regions.1.y == area.y && regions.1.height == area.height,
        regions.2.y == area.y && regions.2.height == area.height,
        regions.0.x == area.x,
        regions.0.width == percent_of(area.width as int, 40),
        regions.1.x == area.x + regions.0.width,
        regions.1.width == percent_of(area.width as int, 10),
        regions.2.x == regions.1.x + regions.1.width,
        regions.2.width == area.width - regions.0.width - regions.1.width,
        rect_fits(regions.0) && rect_fits(regions.1) && rect_fits(regions.2),
{
    let info_width = percent_len(area.width, 40);
    let legend_width = percent_len(area.width, 10);
    proof {
        assert(percent_of(area.width as int, 40) + percent_of(area.width as int, 10)
            <= area.width) by (nonlinear_arith)
            requires
                0 <= area.width,
        ;
    }
    let info = Rect { x: area.x, y: area.y, width: info_width, height: area.height };
    let legend = Rect {
        x: area.x + info_width,
        y: area.y,
        width: legend_width,
        height: area.height,
    };
    let logo = Rect {
        x: legend.x + legend_width,
        y: area.y,
        width: area.width - info_width - legend_width,
        height: area.height,
    };
    (info, legend, logo)
}

/// One entry of the keybinding legend: the key and what it does.
#[derive(Debug, PartialEq)]
pub struct KeybindingItem {
    pub binding: String,
    pub description: String,
}

/// The keybinding legend rendered into the context band: the fixed list of
/// bindings the runtime answers to.
#[derive(Debug, PartialEq)]
pub struct KeybindingsWidget {
    pub keybindings: Vec<KeybindingItem>,
}

impl Default for KeybindingsWidget {
    /// The legend holds the single global binding: `q` quits.
    fn default() -> (widget: KeybindingsWidget)
        ensures
            widget.keybindings@.len() == 1,
            widget.keybindings@[0].binding@ == "<q>"@,
            widget.keybindings@[0].description@ == "Quit"@,
    {
        let mut keybindings: Vec<KeybindingItem> = Vec::new();
        keybindings.push(
            KeybindingItem { binding: "<q>".to_owned(), description: "Quit".to_owned() },
        );
        KeybindingsWidget { keybindings }
    }
}

/// The logo region's placeholder widget: it paints nothing yet.
#[derive(Debug, PartialEq)]
pub struct LogoWidget {}

impl Default for LogoWidget {
    fn default() -> (widget: LogoWidget)
        ensures
            widget == (LogoWidget {  }),
    {
        LogoWidget {  }
    }
}

} // verus!
