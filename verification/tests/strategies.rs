use bevy::math::{Quat, Vec3};
use tick_interpolation::buffer::{BufferState, InterpolateBuffer};
use tick_interpolation::interpolate::Interpolate;
use tick_interpolation::kinds::{
    InterpolateRotation, InterpolateScale, InterpolateTransform, InterpolateTranslation,
};
use tick_interpolation::transform::Transform;

type Pose = Transform<Vec3, Quat>;
type Whole = InterpolateTransform<Vec3, Quat>;
type Position = InterpolateTranslation<Vec3>;
type Orientation = InterpolateRotation<Quat>;
type Scale = InterpolateScale<Vec3>;

fn lerp(from: &Vec3, to: &Vec3, weight: f32) -> Vec3 {
    from.lerp(*to, weight)
}

fn slerp(from: &Quat, to: &Quat, weight: f32) -> Quat {
    from.slerp(*to, weight)
}

fn sample() -> Pose {
    Transform::new(
        Vec3::new(1.0, -2.0, 3.5),
        Quat::from_xyzw(0.0, 1.0, 0.0, 0.0),
        Vec3::new(2.0, 2.0, 0.5),
    )
}

#[test]
fn new_transform_holds_its_three_slices() {
    let pose = sample();
    assert_eq!(pose.translation, Vec3::new(1.0, -2.0, 3.5));
    assert_eq!(pose.rotation, Quat::from_xyzw(0.0, 1.0, 0.0, 0.0));
    assert_eq!(pose.scale, Vec3::new(2.0, 2.0, 0.5));
}

#[test]
fn each_strategy_reads_its_own_slice() {
    let pose = sample();
    assert_eq!(<Whole as Interpolate<Pose>>::get_state(&pose), pose);
    assert_eq!(<Position as Interpolate<Pose>>::get_state(&pose), pose.translation);
    assert_eq!(<Orientation as Interpolate<Pose>>::get_state(&pose), pose.rotation);
    assert_eq!(<Scale as Interpolate<Pose>>::get_state(&pose), pose.scale);
}

#[test]
fn writing_back_what_was_read_changes_nothing() {
    let pose = sample();

    let mut whole = pose;
    let read = <Whole as Interpolate<Pose>>::get_state(&whole);
    <Whole as Interpolate<Pose>>::set_state(&mut whole, read);
    assert_eq!(whole, pose);

    let mut position = pose;
    let read = <Position as Interpolate<Pose>>::get_state(&position);
    <Position as Interpolate<Pose>>::set_state(&mut position, read);
    assert_eq!(position, pose);

    let mut orientation = pose;
    let read = <Orientation as Interpolate<Pose>>::get_state(&orientation);
    <Orientation as Interpolate<Pose>>::set_state(&mut orientation, read);
    assert_eq!(orientation, pose);

    let mut scale = pose;
    let read = <Scale as Interpolate<Pose>>::get_state(&scale);
    <Scale as Interpolate<Pose>>::set_state(&mut scale, read);
    assert_eq!(scale, pose);
}

#[test]
fn reading_gives_what_was_written() {
    let mut pose = sample();
    <Position as Interpolate<Pose>>::set_state(&mut pose, Vec3::new(9.0, 8.0, 7.0));
    assert_eq!(<Position as Interpolate<Pose>>::get_state(&pose), Vec3::new(9.0, 8.0, 7.0));
    <Orientation as Interpolate<Pose>>::set_state(&mut pose, Quat::IDENTITY);
    assert_eq!(<Orientation as Interpolate<Pose>>::get_state(&pose), Quat::IDENTITY);
    <Scale as Interpolate<Pose>>::set_state(&mut pose, Vec3::splat(3.0));
    assert_eq!(<Scale as Interpolate<Pose>>::get_state(&pose), Vec3::splat(3.0));
    let other = Transform::new(Vec3::ZERO, Quat::IDENTITY, Vec3::ONE);
    <Whole as Interpolate<Pose>>::set_state(&mut pose, other);
    assert_eq!(<Whole as Interpolate<Pose>>::get_state(&pose), other);
}

#[test]
fn each_strategy_writes_only_its_own_slice() {
    let pose = sample();

    let mut moved = pose;
    <Position as Interpolate<Pose>>::set_state(&mut moved, Vec3::ZERO);
    assert_eq!(moved, Transform::new(Vec3::ZERO, pose.rotation, pose.scale));

    let mut turned = pose;
    <Orientation as Interpolate<Pose>>::set_state(&mut turned, Quat::IDENTITY);
    assert_eq!(turned, Transform::new(pose.translation, Quat::IDENTITY, pose.scale));

    let mut grown = pose;
    <Scale as Interpolate<Pose>>::set_state(&mut grown, Vec3::splat(4.0));
    assert_eq!(grown, Transform::new(pose.translation, pose.rotation, Vec3::splat(4.0)));
}

#[test]
fn default_markers_hold_empty_buffers() {
    assert_eq!(Whole::default().0.state(), BufferState::Uninitialized);
    assert_eq!(Position::default().0.state(), BufferState::Uninitialized);
    assert_eq!(Orientation::default().0.state(), BufferState::Uninitialized);
    assert_eq!(Scale::default().0.state(), BufferState::Uninitialized);
}

#[test]
fn marker_hands_out_its_own_buffer() {
    let mut marker = Position::default();
    <Position as Interpolate<Pose>>::get_buffer_mut(&mut marker).capture(Vec3::X);
    assert_eq!(marker.0.end, Some(Vec3::X));
    let buffer: &InterpolateBuffer<Vec3> = <Position as Interpolate<Pose>>::get_buffer(&marker);
    assert_eq!(buffer.end, Some(Vec3::X));
    assert_eq!(buffer.start, None);
}

#[test]
fn whole_transform_blends_slice_by_slice() {
    let from = Transform::new(Vec3::ZERO, Quat::IDENTITY, Vec3::ONE);
    let to = Transform::new(
        Vec3::new(2.0, 4.0, 6.0),
        Quat::from_rotation_y(std::f32::consts::FRAC_PI_2),
        Vec3::new(3.0, 1.0, 1.0),
    );
    let blended = Whole::interpolate(&from, &to, 0.5, lerp, slerp);
    assert_eq!(blended.translation, Vec3::new(1.0, 2.0, 3.0));
    assert_eq!(blended.scale, Vec3::new(2.0, 1.0, 1.0));
    assert_eq!(blended.rotation, from.rotation.slerp(to.rotation, 0.5));
    assert!(blended.rotation.abs_diff_eq(Quat::from_rotation_y(std::f32::consts::FRAC_PI_4), 1e-6));
}

#[test]
fn whole_transform_resamples_through_its_buffer() {
    let from = Transform::new(Vec3::ZERO, Quat::IDENTITY, Vec3::ONE);
    let to = Transform::new(Vec3::new(4.0, 0.0, 0.0), Quat::IDENTITY, Vec3::splat(3.0));
    let mut marker = Whole::default();
    let mut pose = from;
    marker.0.capture(from);
    marker.0.commit::<Pose, Whole>(&mut pose);
    marker.0.capture(to);
    let blended = marker
        .0
        .resample(0.25, |a: &Pose, b: &Pose, w: f32| Whole::interpolate(a, b, w, lerp, slerp));
    assert_eq!(
        blended,
        Some(Transform::new(Vec3::new(1.0, 0.0, 0.0), Quat::IDENTITY, Vec3::splat(1.5)))
    );
}

#[test]
fn two_strategies_on_one_entity_do_not_disturb_each_other() {
    let turned = Quat::from_xyzw(0.0, 1.0, 0.0, 0.0);
    let mut pose = Transform::new(Vec3::ZERO, Quat::IDENTITY, Vec3::ONE);
    let mut position = Position::default();
    let mut orientation = Orientation::default();

    position.0.capture(pose.translation);
    orientation.0.capture(pose.rotation);
    position.0.commit::<Pose, Position>(&mut pose);
    orientation.0.commit::<Pose, Orientation>(&mut pose);

    pose.translation = Vec3::new(2.0, 0.0, 0.0);
    position.0.capture(pose.translation);
    assert_eq!(orientation.0.start, Some(Quat::IDENTITY));
    assert_eq!(orientation.0.end, None);

    pose.rotation = turned;
    orientation.0.capture(pose.rotation);
    assert_eq!(position.0.start, Some(Vec3::ZERO));
    assert_eq!(position.0.end, Some(Vec3::new(2.0, 0.0, 0.0)));

    let shown = position.0.resample(0.5, lerp).unwrap();
    <Position as Interpolate<Pose>>::set_state(&mut pose, shown);
    assert_eq!(pose.translation, Vec3::new(1.0, 0.0, 0.0));
    assert_eq!(pose.rotation, turned);
    assert_eq!(orientation.0.start, Some(Quat::IDENTITY));
    assert_eq!(orientation.0.end, Some(turned));

    position.0.commit::<Pose, Position>(&mut pose);
    assert_eq!(pose.translation, Vec3::new(2.0, 0.0, 0.0));
    assert_eq!(pose.rotation, turned);
    assert_eq!(orientation.0.start, Some(Quat::IDENTITY));
    assert_eq!(orientation.0.end, Some(turned));

    orientation.0.commit::<Pose, Orientation>(&mut pose);
    assert_eq!(position.0.start, Some(Vec3::new(2.0, 0.0, 0.0)));
    assert_eq!(position.0.end, None);
    assert_eq!(pose, Transform::new(Vec3::new(2.0, 0.0, 0.0), turned, Vec3::ONE));
}
