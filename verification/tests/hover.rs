use card_game::utils::assets::loader::{check_loaded, is_asset_loaded, LoadState, TestAssetLoadingState};
use card_game::utils::interactive::{
    Clickable, Clicked, Hoverable, Hovered, IVec2, ImageSize, Interactive, Loaded,
};
use card_game::utils::mouse::click::{
    is_clicked, is_released, ButtonState, MouseButton, MouseButtonInput,
};
use card_game::utils::mouse::hover::{is_hovered, is_within_bounds};
use card_game::utils::mouse::{MouseCoordinates, MouseInteractionBundle};

/// The image of the back of a card, as the tests draw it.
fn card_back() -> ImageSize {
    ImageSize { width: 100, height: 100 }
}

/// Runs the loading systems and then hover detection, once the image is
/// there.
fn load_then_hover(world: &mut Vec<Interactive>, coordinates: &MouseCoordinates) {
    let mut state = TestAssetLoadingState::default();
    let load_states = vec![LoadState::Loaded; world.len()];
    while state == TestAssetLoadingState::Loading {
        is_asset_loaded(world, &load_states);
        check_loaded(&load_states, &mut state);
    }
    is_hovered(world, coordinates);
}

#[test]
// Hoverable [V] Hovering [V]
fn hoverable_hovering() {
    // Add mouse coordinates
    let coordinates = MouseCoordinates(IVec2::new(0, 0));

    // Add Hoverable entity with an image
    let mut world = vec![Interactive {
        hoverable: Some(Hoverable),
        image: Some(card_back()),
        ..Interactive::new(IVec2::new(0, 0))
    }];

    // update the game until asset is loaded then check if hovered
    load_then_hover(&mut world, &coordinates);

    // retrieve entity after update
    let entity = world.get(0);

    assert!(entity.is_some());
    assert!(entity.unwrap().hovered.is_some());
}

#[test]
// Hoverable [V] Hovering [X]
fn hoverable_not_hovering() {
    // Add mouse coordinates
    let coordinates = MouseCoordinates(IVec2::new(200, 0));

    // Add Hoverable entity with an image
    let mut world = vec![Interactive {
        hoverable: Some(Hoverable),
        image: Some(card_back()),
        ..Interactive::new(IVec2::new(0, 0))
    }];

    // update the game until asset is loaded then check if hovered
    load_then_hover(&mut world, &coordinates);

    // retrieve entity after update
    let entity = world.get(0);

    assert!(entity.is_some());
    assert!(entity.unwrap().hovered.is_none());
}

#[test]
// Hoverable [X] Hovering [V]
fn not_hoverable_hovering() {
    // Add mouse coordinates
    let coordinates = MouseCoordinates(IVec2::new(0, 0));

    // Add entity with an image that is not Hoverable
    let mut world =
        vec![Interactive { image: Some(card_back()), ..Interactive::new(IVec2::new(0, 0)) }];

    // update the game until asset is loaded then check if hovered
    load_then_hover(&mut world, &coordinates);

    // retrieve entity after update
    let entity = world.get(0);

    assert!(entity.is_some());
    assert!(entity.unwrap().hovered.is_none());
}

#[test]
// Hoverable [X] Hovering [X]
fn not_hoverable_not_hovering() {
    // Add mouse coordinates
    let coordinates = MouseCoordinates(IVec2::new(200, 0));

    // Add entity with an image that is not Hoverable
    let mut world =
        vec![Interactive { image: Some(card_back()), ..Interactive::new(IVec2::new(0, 0)) }];

    // update the game until asset is loaded then check if hovered
    load_then_hover(&mut world, &coordinates);

    // retrieve entity after update
    let entity = world.get(0);

    assert!(entity.is_some());
    assert!(entity.unwrap().hovered.is_none());
}

fn loaded_hoverable(position: IVec2, image: ImageSize) -> Interactive {
    Interactive {
        hoverable: Some(Hoverable),
        loaded: Some(Loaded),
        image: Some(image),
        ..Interactive::new(position)
    }
}

fn hovered_at(object: Interactive, x: i32, y: i32) -> bool {
    let mut world = vec![object];
    is_hovered(&mut world, &MouseCoordinates(IVec2::new(x, y)));
    world[0].hovered.is_some()
}

#[test]
fn hover_on_a_square_image_at_the_origin() {
    let object = loaded_hoverable(IVec2::new(0, 0), ImageSize { width: 100, height: 100 });
    assert!(hovered_at(object, 0, 0));
    assert!(hovered_at(object, 49, 49));
    assert!(!hovered_at(object, 51, 0));
}

#[test]
fn the_border_of_the_box_belongs_to_it() {
    let object = loaded_hoverable(IVec2::new(0, 0), ImageSize { width: 100, height: 100 });
    assert!(hovered_at(object, 50, 50));
    assert!(hovered_at(object, -50, -50));
    assert!(hovered_at(object, 50, -50));
    assert!(!hovered_at(object, 0, 51));
    assert!(!hovered_at(object, 0, -51));
    assert!(!hovered_at(object, -51, 0));
}

#[test]
fn an_odd_dimension_keeps_its_half_unit() {
    // half the width is 50.5: 50 is inside, 51 is not
    let object = loaded_hoverable(IVec2::new(0, 0), ImageSize { width: 101, height: 3 });
    assert!(hovered_at(object, 50, 1));
    assert!(hovered_at(object, -50, -1));
    assert!(!hovered_at(object, 51, 0));
    assert!(!hovered_at(object, 0, 2));
}

#[test]
fn the_box_follows_the_position() {
    let object = loaded_hoverable(IVec2::new(0, 300), ImageSize { width: 80, height: 120 });
    assert!(hovered_at(object, 0, 300));
    assert!(hovered_at(object, 40, 360));
    assert!(hovered_at(object, -40, 240));
    assert!(!hovered_at(object, 0, 0));
    assert!(!hovered_at(object, 41, 300));
    assert!(!hovered_at(object, 0, 239));
}

#[test]
fn bounds_at_the_limits_of_the_coordinates() {
    let size = ImageSize { width: u32::MAX, height: u32::MAX };
    assert!(is_within_bounds(IVec2::new(i32::MAX, i32::MIN), size, IVec2::new(i32::MAX, i32::MIN)));
    assert!(is_within_bounds(IVec2::new(i32::MIN, i32::MIN), size, IVec2::new(-1, -1)));
    assert!(!is_within_bounds(IVec2::new(i32::MIN, 0), size, IVec2::new(0, 0)));
    let point = ImageSize { width: 0, height: 0 };
    assert!(is_within_bounds(IVec2::new(7, -7), point, IVec2::new(7, -7)));
    assert!(!is_within_bounds(IVec2::new(7, -7), point, IVec2::new(8, -7)));
}

#[test]
fn hover_is_lost_when_the_pointer_leaves() {
    let object = loaded_hoverable(IVec2::new(0, 0), ImageSize { width: 100, height: 100 });
    let mut world = vec![object];
    is_hovered(&mut world, &MouseCoordinates(IVec2::new(10, 10)));
    assert_eq!(world[0].hovered, Some(Hovered));
    is_hovered(&mut world, &MouseCoordinates(IVec2::new(200, 10)));
    assert_eq!(world[0].hovered, None);
}

#[test]
fn a_clicked_object_keeps_its_hover_state() {
    let object = Interactive {
        hovered: Some(Hovered),
        clicked: Some(Clicked),
        ..loaded_hoverable(IVec2::new(0, 0), ImageSize { width: 100, height: 100 })
    };
    let mut world = vec![object];
    // the pointer is far outside the box
    is_hovered(&mut world, &MouseCoordinates(IVec2::new(500, 500)));
    assert_eq!(world[0], object);

    // and a clicked object that was not hovered does not become so
    let object = Interactive { hovered: None, ..object };
    let mut world = vec![object];
    is_hovered(&mut world, &MouseCoordinates(IVec2::new(0, 0)));
    assert_eq!(world[0], object);
}

#[test]
fn dragging_off_the_object_keeps_it_hovered_until_release() {
    let press = vec![MouseButtonInput { button: MouseButton::Left, state: ButtonState::Pressed }];
    let release = vec![MouseButtonInput { button: MouseButton::Left, state: ButtonState::Released }];
    let none: Vec<MouseButtonInput> = Vec::new();
    let object = loaded_hoverable(IVec2::new(0, 0), ImageSize { width: 100, height: 100 })
        .with_mouse_interaction(MouseInteractionBundle::default());
    let mut world = vec![object];

    // frame 1: the pointer is over the object and the button goes down
    is_hovered(&mut world, &MouseCoordinates(IVec2::new(0, 0)));
    is_clicked(&mut world, &press);
    is_released(&mut world, &press);
    assert_eq!(world[0].hovered, Some(Hovered));
    assert_eq!(world[0].clicked, Some(Clicked));

    // frame 2: the pointer leaves the box with the button held
    is_hovered(&mut world, &MouseCoordinates(IVec2::new(300, 0)));
    is_clicked(&mut world, &none);
    is_released(&mut world, &none);
    assert_eq!(world[0].hovered, Some(Hovered));
    assert_eq!(world[0].clicked, Some(Clicked));

    // frame 3: the button comes up, away from the object
    is_hovered(&mut world, &MouseCoordinates(IVec2::new(300, 0)));
    is_clicked(&mut world, &release);
    is_released(&mut world, &release);
    assert_eq!(world[0].hovered, Some(Hovered));
    assert_eq!(world[0].clicked, None);

    // frame 4: hover detection looks at the object again
    is_hovered(&mut world, &MouseCoordinates(IVec2::new(300, 0)));
    assert_eq!(world[0].hovered, None);
}

#[test]
fn an_object_whose_image_has_not_loaded_is_passed_over() {
    let waiting = Interactive {
        hoverable: Some(Hoverable),
        image: Some(ImageSize { width: 100, height: 100 }),
        ..Interactive::new(IVec2::new(0, 0))
    };
    let unknown = Interactive {
        hoverable: Some(Hoverable),
        loaded: Some(Loaded),
        ..Interactive::new(IVec2::new(0, 0))
    };
    let stale = Interactive { hovered: Some(Hovered), ..waiting };
    let mut world = vec![waiting, unknown, stale];
    is_hovered(&mut world, &MouseCoordinates(IVec2::new(0, 0)));
    assert_eq!(world, vec![waiting, unknown, stale]);
    is_hovered(&mut world, &MouseCoordinates(IVec2::new(900, 0)));
    assert_eq!(world, vec![waiting, unknown, stale]);
}

#[test]
fn every_object_is_tested_on_its_own() {
    let size = ImageSize { width: 100, height: 150 };
    let mut world = vec![
        loaded_hoverable(IVec2::new(-300, 0), size),
        loaded_hoverable(IVec2::new(-100, 0), size),
        loaded_hoverable(IVec2::new(-60, 0), size),
        Interactive { clickable: Some(Clickable), ..Interactive::new(IVec2::new(-100, 0)) },
    ];
    is_hovered(&mut world, &MouseCoordinates(IVec2::new(-100, 70)));
    assert_eq!(world[0].hovered, None);
    assert_eq!(world[1].hovered, Some(Hovered));
    assert_eq!(world[2].hovered, Some(Hovered));
    assert_eq!(world[3].hovered, None);
}

#[test]
fn hover_of_a_single_object() {
    let object = loaded_hoverable(IVec2::new(10, 10), ImageSize { width: 20, height: 20 });
    assert_eq!(object.hover(IVec2::new(20, 0)).hovered, Some(Hovered));
    assert_eq!(object.hover(IVec2::new(21, 0)).hovered, None);
    let bare = Interactive::new(IVec2::new(10, 10));
    assert_eq!(bare.hover(IVec2::new(10, 10)), bare);
}

#[test]
fn the_interaction_bundle_attaches_both_tags() {
    let object = Interactive::new(IVec2::new(1, 2))
        .with_mouse_interaction(MouseInteractionBundle::default());
    assert_eq!(
        object,
        Interactive {
            hoverable: Some(Hoverable),
            clickable: Some(Clickable),
            ..Interactive::new(IVec2::new(1, 2))
        }
    );
    assert_eq!(object.position, IVec2 { x: 1, y: 2 });
    assert_eq!(Interactive::new(IVec2::new(1, 2)).image, None);
}
