use ecs_core::animation::character_animation_frames;
use ecs_core::animation::direction_spreedsheet_row;
use ecs_core::animation::new_movement_animation;
use ecs_core::components::Direction;
use ecs_core::components::Rect;

fn player_top_left() -> Rect {
    Rect { x: 0, y: 0, width: 26, height: 36 }
}

#[test]
fn rows_follow_sheet_layout() {
    assert_eq!(direction_spreedsheet_row(Direction::Down), 0);
    assert_eq!(direction_spreedsheet_row(Direction::Left), 1);
    assert_eq!(direction_spreedsheet_row(Direction::Right), 2);
    assert_eq!(direction_spreedsheet_row(Direction::Up), 3);
}

#[test]
fn frames_are_cut_from_the_direction_row() {
    let frames = character_animation_frames(0, player_top_left(), Direction::Right);
    assert_eq!(frames.len(), 3);
    for (i, f) in frames.iter().enumerate() {
        assert_eq!(f.sprite_sheet, 0);
        assert_eq!(f.region.x, 26 * i as i32);
        assert_eq!(f.region.y, 72);
        assert_eq!(f.region.width, 26);
        assert_eq!(f.region.height, 36);
    }
}

#[test]
fn frames_respect_sheet_origin_offset() {
    let top_left = Rect { x: 10, y: 20, width: 8, height: 16 };
    let frames = character_animation_frames(7, top_left, Direction::Up);
    assert_eq!(frames.len(), 3);
    assert_eq!(frames[0].region.x, 10);
    assert_eq!(frames[1].region.x, 18);
    assert_eq!(frames[2].region.x, 26);
    for f in frames.iter() {
        assert_eq!(f.sprite_sheet, 7);
        assert_eq!(f.region.y, 20 + 16 * 3);
        assert_eq!(f.region.width, 8);
        assert_eq!(f.region.height, 16);
    }
}

#[test]
fn constructed_animation_has_three_frames_per_direction() {
    let a = new_movement_animation(0, player_top_left());
    assert_eq!(a.current_frame, 0);
    assert_eq!(a.up_frames.len(), 3);
    assert_eq!(a.down_frames.len(), 3);
    assert_eq!(a.left_frames.len(), 3);
    assert_eq!(a.right_frames.len(), 3);
}

#[test]
fn malformed_animation_is_detected_eagerly() {
    let good = new_movement_animation(0, player_top_left());
    assert!(good.is_well_formed());

    let mut missing_frame = new_movement_animation(0, player_top_left());
    missing_frame.left_frames.pop();
    assert!(!missing_frame.is_well_formed());

    let mut bad_index = new_movement_animation(0, player_top_left());
    bad_index.current_frame = 3;
    assert!(!bad_index.is_well_formed());
}

#[test]
fn constructed_animation_rows_match_directions() {
    let a = new_movement_animation(0, player_top_left());
    assert_eq!(a.down_frames[0].region.y, 0);
    assert_eq!(a.left_frames[0].region.y, 36);
    assert_eq!(a.right_frames[0].region.y, 72);
    assert_eq!(a.up_frames[0].region.y, 108);
    assert_eq!(
        a.down_frames,
        character_animation_frames(0, player_top_left(), Direction::Down)
    );
    assert_eq!(
        a.up_frames,
        character_animation_frames(0, player_top_left(), Direction::Up)
    );
    assert_eq!(
        a.left_frames,
        character_animation_frames(0, player_top_left(), Direction::Left)
    );
    assert_eq!(
        a.right_frames,
        character_animation_frames(0, player_top_left(), Direction::Right)
    );
}
