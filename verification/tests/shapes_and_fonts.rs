use lotus_engine::shape::{Circle, GeometryType, Orientation};
use lotus_engine::text::Fonts;
use lotus_engine::text::font::Fonts as AssetFonts;
use lotus_engine::physics::{BodyType, CollisionAlgorithm, Strategy};
use lotus_engine::visibility::Visibility;
use lotus_engine::sprite::Sprite;
use lotus_engine::sprite_sheet::{AnimationState, LoopingState, SpriteSheet};

#[test]
fn index_arrays() {
    assert_eq!(GeometryType::Triangle.to_index_array(), vec![0, 1, 2]);
    assert_eq!(GeometryType::Square.to_index_array(), vec![0, 1, 2, 2, 3, 0]);
    assert_eq!(GeometryType::Rectangle.to_index_array(), vec![0, 1, 2, 2, 3, 0]);
    assert_eq!(GeometryType::Circle(Circle::new(3)).to_index_array(), vec![0, 1, 2, 0, 2, 3, 0, 3, 1]);
    assert_eq!(GeometryType::Circle(Circle::new(0)).to_index_array(), Vec::<u16>::new());
    let fan = GeometryType::Circle(Circle::default()).to_index_array();
    assert_eq!(fan.len(), 3 * 64);
    assert!(fan.iter().all(|i| *i <= 64));
    let big = GeometryType::Circle(Circle::new(u16::MAX)).to_index_array();
    assert_eq!(&big[big.len() - 3..], &[0, 65535, 1]);
    let _ = Orientation::Vertical;
}

#[test]
fn font_paths() {
    for font in [Fonts::UnderdogRegular, Fonts::CodystarLight, Fonts::CodystarRegular, Fonts::RobotoMono, Fonts::RobotoMonoItalic] {
        assert_eq!(Fonts::from_path(font.get_path()), Some(font));
    }
    assert_eq!(Fonts::RobotoMonoItalic.get_path(), "../../assets/fonts/RobotoMono-Italic-VariableFont_wght.ttf");
    assert_eq!(Fonts::from_path("fonts/Other.ttf".to_string()), None);
    for font in [AssetFonts::UnderdogRegular, AssetFonts::CodystarLight, AssetFonts::CodystarRegular, AssetFonts::RobotoMono, AssetFonts::RobotoMonoItalic] {
        assert_eq!(AssetFonts::from_path(font.get_path()), Some(font));
    }
    assert_eq!(AssetFonts::UnderdogRegular.get_path(), "../assets/fonts/Underdog-Regular.ttf");
    assert_eq!(AssetFonts::from_path("../../assets/fonts/Underdog-Regular.ttf".to_string()), None);
}

#[test]
fn defaults_and_small_types() {
    assert_eq!(CollisionAlgorithm::default(), CollisionAlgorithm::Aabb);
    assert_eq!(BodyType::default(), BodyType::Kinematic);
    assert_eq!(Strategy::default(), Strategy::Normalized);
    assert!(Visibility::default().0);
    assert!(!Visibility::new(false).0);
    assert_eq!(Sprite::new("textures/a.png".to_string()).path, "textures/a.png");
}

#[test]
fn sprite_sheet_states() {
    let mut sheet = SpriteSheet::new("sheet.png".to_string(), LoopingState::Repeat, 100, 2, 3, vec![4, 5]);
    assert!(sheet.animation_state == AnimationState::Finished);
    assert_eq!(sheet.current_tile(), 4);
    sheet.pause();
    assert!(sheet.animation_state == AnimationState::Finished);
    sheet.play();
    assert!(sheet.animation_state == AnimationState::Playing);
    sheet.timer.tick(50);
    sheet.current_index = 1;
    sheet.pause();
    assert!(sheet.animation_state == AnimationState::Paused);
    assert_eq!(sheet.current_tile(), 5);
    sheet.resume();
    assert!(sheet.animation_state == AnimationState::Playing);
    sheet.play();
    assert_eq!(sheet.timer.elapsed_nanos, 0);
    sheet.stop();
    assert!(sheet.animation_state == AnimationState::Stopped);
    assert_eq!(sheet.current_index, 0);
    sheet.resume();
    assert!(sheet.animation_state == AnimationState::Stopped);
}
