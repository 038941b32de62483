use libecs::ui::{split_context, split_frame, KeybindingsWidget, LogoWidget, Rect};

#[test]
fn frame_splits_into_context_and_content_bands() {
    let area = Rect { x: 0, y: 0, width: 100, height: 50 };
    let (context, content) = split_frame(area);
    assert_eq!(context, Rect { x: 0, y: 0, width: 100, height: 10 });
    assert_eq!(content, Rect { x: 0, y: 10, width: 100, height: 40 });
}

#[test]
fn frame_split_rounds_down_and_keeps_the_rest() {
    let area = Rect { x: 2, y: 3, width: 9, height: 7 };
    let (context, content) = split_frame(area);
    // 20% of 7 rounds down to 1; the content band takes the other 6 rows.
    assert_eq!(context, Rect { x: 2, y: 3, width: 9, height: 1 });
    assert_eq!(content, Rect { x: 2, y: 4, width: 9, height: 6 });
}

#[test]
fn context_band_splits_into_three_regions() {
    let band = Rect { x: 0, y: 0, width: 100, height: 10 };
    let (info, legend, logo) = split_context(band);
    assert_eq!(info, Rect { x: 0, y: 0, width: 40, height: 10 });
    assert_eq!(legend, Rect { x: 40, y: 0, width: 10, height: 10 });
    assert_eq!(logo, Rect { x: 50, y: 0, width: 50, height: 10 });
}

#[test]
fn context_band_regions_cover_odd_widths() {
    let band = Rect { x: 1, y: 2, width: 13, height: 3 };
    let (info, legend, logo) = split_context(band);
    assert_eq!(info.width, 5); // 40% of 13, rounded down
    assert_eq!(legend.width, 1); // 10% of 13, rounded down
    assert_eq!(logo.width, 7); // the rest
    assert_eq!(info.width + legend.width + logo.width, band.width);
    assert_eq!(legend.x, 6);
    assert_eq!(logo.x, 7);
}

#[test]
fn keybinding_legend_holds_the_quit_binding() {
    let widget = KeybindingsWidget::default();
    assert_eq!(widget.keybindings.len(), 1);
    assert_eq!(widget.keybindings[0].binding, "<q>");
    assert_eq!(widget.keybindings[0].description, "Quit");
}

#[test]
fn logo_widget_is_empty() {
    assert_eq!(LogoWidget::default(), LogoWidget {});
}
