use inertia::shape::{choose_shape, shape_from_code, Field, ShapeKind};

#[test]
fn codes_select_their_shapes() {
    assert_eq!(choose_shape("1"), Some(ShapeKind::Rectangle));
    assert_eq!(choose_shape("2"), Some(ShapeKind::Sphere));
    assert_eq!(choose_shape("3"), Some(ShapeKind::Cylinder));
}

#[test]
fn codes_are_trimmed_before_reading() {
    assert_eq!(choose_shape("1\n"), Some(ShapeKind::Rectangle));
    assert_eq!(choose_shape("  2\r\n"), Some(ShapeKind::Sphere));
    assert_eq!(choose_shape("\t3 "), Some(ShapeKind::Cylinder));
}

#[test]
fn other_lines_select_nothing() {
    assert_eq!(choose_shape("4"), None);
    assert_eq!(choose_shape(""), None);
    assert_eq!(choose_shape("\n"), None);
    assert_eq!(choose_shape("0"), None);
    assert_eq!(choose_shape("11"), None);
    assert_eq!(choose_shape("1 2"), None);
    assert_eq!(choose_shape("one"), None);
    assert_eq!(choose_shape("1.0"), None);
}

#[test]
fn untrimmed_code_is_no_code() {
    assert_eq!(shape_from_code("1"), Some(ShapeKind::Rectangle));
    assert_eq!(shape_from_code(" 1"), None);
    assert_eq!(shape_from_code("1\n"), None);
}

#[test]
fn fields_come_mass_first_in_declared_order() {
    assert_eq!(
        ShapeKind::Rectangle.fields(),
        vec![Field::Mass, Field::Depth, Field::Width, Field::Height]
    );
    assert_eq!(ShapeKind::Sphere.fields(), vec![Field::Mass, Field::Radius]);
    assert_eq!(
        ShapeKind::Cylinder.fields(),
        vec![Field::Mass, Field::Radius, Field::Height]
    );
}

#[test]
fn field_at_walks_the_fields() {
    for kind in [ShapeKind::Rectangle, ShapeKind::Sphere, ShapeKind::Cylinder] {
        let fields = kind.fields();
        assert_eq!(kind.field_count(), fields.len());
        for (index, field) in fields.iter().enumerate() {
            assert_eq!(kind.field_at(index), Some(*field));
        }
        assert_eq!(kind.field_at(fields.len()), None);
        assert_eq!(kind.field_at(usize::MAX), None);
    }
}

#[test]
fn prompts_have_their_exact_text() {
    assert_eq!(Field::Mass.prompt(), "Please enter mass:");
    assert_eq!(Field::Depth.prompt(), "Please enter depth: ");
    assert_eq!(Field::Width.prompt(), "Please enter width: ");
    assert_eq!(Field::Height.prompt(), "Please enter height: ");
    assert_eq!(Field::Radius.prompt(), "Please enter radius: ");
}

#[test]
fn banners_have_their_exact_text() {
    assert_eq!(ShapeKind::Rectangle.banner(), "Solid Rectangle Selected:");
    assert_eq!(ShapeKind::Sphere.banner(), "Solid Sphere Selected:");
    assert_eq!(ShapeKind::Cylinder.banner(), "Solid Cylinder Selected:");
}

#[test]
fn banners_name_their_own_shape() {
    assert!(ShapeKind::Rectangle.banner().contains("Rectangle"));
    assert!(ShapeKind::Sphere.banner().contains("Sphere"));
    assert!(ShapeKind::Cylinder.banner().contains("Cylinder"));
    assert!(!ShapeKind::Cylinder.banner().contains("Rectangle"));
    assert!(!ShapeKind::Cylinder.banner().contains("Sphere"));
    assert_ne!(ShapeKind::Cylinder.banner(), ShapeKind::Rectangle.banner());
    assert_ne!(ShapeKind::Cylinder.banner(), ShapeKind::Sphere.banner());
    assert_ne!(ShapeKind::Rectangle.banner(), ShapeKind::Sphere.banner());
}
