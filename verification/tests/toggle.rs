use toggle_draw::toggle::{KeyOutcome, Parity, Toggler};
use toggle_draw::view::{image_path, ImageFile, Renderer, Widget};

#[test]
fn initial_state_is_even_with_multi_shape_view() {
    let t = Toggler::new();
    assert_eq!(t.counter, 0);
    assert_eq!(t.state(), Parity::Even);
    assert_eq!(
        t.container.children,
        vec![
            Widget::DrawingSurface(Renderer::MultiShape),
            Widget::ImageSurface(ImageFile::Viaduct),
        ]
    );
}

#[test]
fn parity_selects_exactly_one_view_pair() {
    let mut t = Toggler::new();
    for press in 1u64..=6 {
        assert_eq!(t.handle_key("x"), KeyOutcome::Rebuilt);
        assert_eq!(t.counter, press);
        let expected = if press % 2 == 0 {
            (
                Parity::Even,
                vec![
                    Widget::DrawingSurface(Renderer::MultiShape),
                    Widget::ImageSurface(ImageFile::Viaduct),
                ],
            )
        } else {
            (
                Parity::Odd,
                vec![
                    Widget::DrawingSurface(Renderer::SingleCircle),
                    Widget::ImageSurface(ImageFile::Gecko),
                ],
            )
        };
        assert_eq!(t.state(), expected.0);
        assert_eq!(t.container.children, expected.1);
    }
}

#[test]
fn press_a_at_zero_switches_to_single_circle_and_gecko() {
    let mut t = Toggler::new();
    let out = t.handle_key("a");
    assert_eq!(out, KeyOutcome::Rebuilt);
    assert_eq!(t.counter, 1);
    assert_eq!(t.state(), Parity::Odd);
    assert_eq!(
        t.container.children,
        vec![
            Widget::DrawingSurface(Renderer::SingleCircle),
            Widget::ImageSurface(ImageFile::Gecko),
        ]
    );
}

#[test]
fn quit_at_one_closes_without_rebuilding() {
    let mut t = Toggler::new();
    assert_eq!(t.handle_key("a"), KeyOutcome::Rebuilt);
    let before = t.container.children.clone();
    let out = t.handle_key("q");
    assert_eq!(out, KeyOutcome::CloseRequested);
    assert_eq!(t.counter, 1);
    assert_eq!(t.container.children, before);
}

#[test]
fn quit_at_zero_closes_without_rebuilding() {
    let mut t = Toggler::new();
    let before = t.container.children.clone();
    let out = t.handle_key("q");
    assert_eq!(out, KeyOutcome::CloseRequested);
    assert_eq!(t.counter, 0);
    assert_eq!(t.container.children, before);
}

#[test]
fn double_press_returns_to_original_pair() {
    let mut t = Toggler::new();
    let original = t.container.children.clone();
    assert_eq!(t.handle_key("b"), KeyOutcome::Rebuilt);
    assert_ne!(t.container.children, original);
    assert_eq!(t.state(), Parity::Odd);
    assert_eq!(t.handle_key("b"), KeyOutcome::Rebuilt);
    assert_eq!(t.counter, 2);
    assert_eq!(t.state(), Parity::Even);
    assert_eq!(t.container.children, original);
}

#[test]
fn container_always_holds_exactly_two_children() {
    let mut t = Toggler::new();
    assert_eq!(t.container.children.len(), 2);
    for _ in 0..5 {
        t.handle_key("space");
        assert_eq!(t.container.children.len(), 2);
        assert!(matches!(t.container.children[0], Widget::DrawingSurface(_)));
        assert!(matches!(t.container.children[1], Widget::ImageSurface(_)));
    }
}

#[test]
fn image_paths_name_the_two_pictures() {
    assert_eq!(
        image_path(ImageFile::Viaduct),
        "testdata/paul-klee-revolution-of-the-viaduct.jpeg"
    );
    assert_eq!(
        image_path(ImageFile::Gecko),
        "testdata/maurits-cornelis-escher-gecko.jpeg"
    );
}
