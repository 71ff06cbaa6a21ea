use ratzilla::event::{MouseButton, MouseEvent, MouseEventKind};
use ratzilla::pointer::{create_mouse_event, mouse_to_grid_coords, ElementRect, MouseConfig};

fn rect(left: i32, top: i32, width: i32, height: i32) -> ElementRect {
    ElementRect { left, top, width, height }
}

#[test]
fn test_mouse_config_builder() {
    let config = MouseConfig::new(80, 24).with_offset(5).with_cell_dimensions(10, 19);

    assert_eq!(config.grid_width, 80);
    assert_eq!(config.grid_height, 24);
    assert_eq!(config.offset, Some(5));
    assert_eq!(config.cell_dimensions, Some((10, 19)));
}

#[test]
fn pointer_maps_to_cell_with_fixed_cell_size() {
    let config = MouseConfig::new(80, 24).with_offset(0).with_cell_dimensions(10, 19);
    assert_eq!(mouse_to_grid_coords(15, 38, rect(0, 0, 800, 456), &config), (1, 2));
    assert_eq!(mouse_to_grid_coords(115, 238, rect(100, 200, 800, 456), &config), (1, 2));
}

#[test]
fn pointer_is_clamped_to_grid() {
    let config = MouseConfig::new(80, 24).with_cell_dimensions(10, 19);
    assert_eq!(mouse_to_grid_coords(-50, -3, rect(0, 0, 800, 456), &config), (0, 0));
    assert_eq!(mouse_to_grid_coords(5000, 5000, rect(0, 0, 800, 456), &config), (79, 23));
}

#[test]
fn pointer_uses_element_size_less_offset() {
    let config = MouseConfig::new(10, 10).with_offset(5);
    assert_eq!(mouse_to_grid_coords(55, 104, rect(0, 0, 110, 210), &config), (5, 4));
}

#[test]
fn empty_drawable_area_maps_to_origin() {
    let config = MouseConfig::new(10, 10).with_offset(5);
    assert_eq!(mouse_to_grid_coords(55, 55, rect(0, 0, 10, 100), &config), (0, 0));
    let zero_cells = MouseConfig::new(0, 10).with_cell_dimensions(10, 10);
    assert_eq!(mouse_to_grid_coords(55, 55, rect(0, 0, 100, 100), &zero_cells), (0, 0));
}

#[test]
fn mouse_event_in_grid_coordinates() {
    let config = MouseConfig::new(80, 24).with_cell_dimensions(10, 19);
    let e = create_mouse_event("mousedown", 2, 25, 40, rect(0, 0, 800, 456), &config, false, true, false);
    assert_eq!(
        e,
        MouseEvent {
            kind: MouseEventKind::ButtonDown(MouseButton::Right),
            col: 2,
            row: 2,
            ctrl: false,
            alt: true,
            shift: false,
        }
    );
}
