use inertia::matrix::format_matrix;

#[test]
fn matrix_has_the_fixed_layout() {
    assert_eq!(
        format_matrix("1.5", "2.5", "3.5"),
        "Moment of inertia matrix:\n\nixx=1.5 ixy=0 ixz=0\niyx=0 iyy=2.5 iyz=0\nizx=0 izy=0 izz=3.5\n"
    );
}

#[test]
fn matrix_is_the_same_for_the_same_moments() {
    let first = format_matrix("5.6666665", "6.8333335", "4.1666665");
    let second = format_matrix("5.6666665", "6.8333335", "4.1666665");
    assert_eq!(first.as_bytes(), second.as_bytes());
}

#[test]
fn matrix_keeps_the_order_of_the_moments() {
    let text = format_matrix("a", "b", "c");
    let lines: Vec<&str> = text.lines().collect();
    assert_eq!(lines.len(), 5);
    assert_eq!(lines[0], "Moment of inertia matrix:");
    assert_eq!(lines[1], "");
    assert_eq!(lines[2], "ixx=a ixy=0 ixz=0");
    assert_eq!(lines[3], "iyx=0 iyy=b iyz=0");
    assert_eq!(lines[4], "izx=0 izy=0 izz=c");
    assert!(text.ends_with("izz=c\n"));
}

#[test]
fn matrix_passes_odd_moments_through() {
    let nan = format!("{}", f32::NAN);
    let negative = format!("{}", -3.25f32);
    let infinite = format!("{}", f32::INFINITY);
    assert_eq!(
        format_matrix(&nan, &negative, &infinite),
        "Moment of inertia matrix:\n\nixx=NaN ixy=0 ixz=0\niyx=0 iyy=-3.25 iyz=0\nizx=0 izy=0 izz=inf\n"
    );
}

#[test]
fn matrix_of_empty_moments_is_the_bare_frame() {
    assert_eq!(
        format_matrix("", "", ""),
        "Moment of inertia matrix:\n\nixx= ixy=0 ixz=0\niyx=0 iyy= iyz=0\nizx=0 izy=0 izz=\n"
    );
}

#[test]
fn matrix_off_diagonal_reads_like_a_rendered_zero() {
    let zero = format!("{}", 0.);
    let text = format_matrix("7", "8", "9");
    let expected = format!(
        "Moment of inertia matrix:\n\nixx=7 ixy={z} ixz={z}\niyx={z} iyy=8 iyz={z}\nizx={z} izy={z} izz=9\n",
        z = zero
    );
    assert_eq!(text, expected);
}
