use processor_rust::color::{dominant_color_nonempty, Color};
use processor_rust::errors::CycleError;
use processor_rust::flag::Flag;
use processor_rust::region::{PollOutcome, Region, REGION_CAPACITY};

fn rgb(red: u8, green: u8, blue: u8) -> Color {
    Color { red, green, blue }
}

fn loaded_region(rows: u8, columns: u8, pixels: &[Color]) -> Region {
    let mut region = Region::new(REGION_CAPACITY);
    region.write_dimensions(rows, columns);
    for row in 0..rows as usize {
        for col in 0..columns as usize {
            region.write_pixel(rows, columns, row, col, pixels[row * columns as usize + col]);
        }
    }
    region
}

#[test]
fn round_trip_two_by_three_scenario() {
    let pixels = [
        rgb(1, 1, 1), rgb(1, 1, 1), rgb(2, 2, 2),
        rgb(5, 5, 5), rgb(6, 6, 6), rgb(7, 7, 7),
    ];
    let mut region = loaded_region(2, 3, &pixels);
    region.write_flag(Flag::InputReady);

    let outcome = region.poll_step();
    assert_eq!(outcome, Ok(PollOutcome::Produced));
    assert_eq!(region.read_flag(), 1);
    assert_eq!(region.read_result(2, 3, 0), rgb(1, 1, 1));
    assert_eq!(region.read_result(2, 3, 1), rgb(5, 5, 5));
}

#[test]
fn results_match_an_independent_reduction() {
    let pixels = [
        rgb(8, 0, 0), rgb(8, 0, 0), rgb(1, 2, 3), rgb(8, 0, 0),
        rgb(4, 4, 4), rgb(9, 9, 9), rgb(9, 9, 9), rgb(4, 4, 4),
        rgb(3, 3, 3), rgb(3, 3, 3), rgb(3, 3, 3), rgb(3, 3, 3),
    ];
    let rows = 3u8;
    let columns = 4u8;
    let mut region = loaded_region(rows, columns, &pixels);
    region.write_flag(Flag::InputReady);
    assert_eq!(region.poll_step(), Ok(PollOutcome::Produced));

    for row in 0..rows as usize {
        let gathered: Vec<Color> =
            (0..columns as usize).map(|col| pixels[row * columns as usize + col]).collect();
        let expected = dominant_color_nonempty(&gathered);
        assert_eq!(region.read_result(rows, columns, row), expected);
    }
}

#[test]
fn one_by_one_image_returns_its_single_pixel() {
    let mut region = loaded_region(1, 1, &[rgb(210, 120, 30)]);
    region.write_flag(Flag::InputReady);
    assert_eq!(region.poll_step(), Ok(PollOutcome::Produced));
    assert_eq!(region.read_flag(), 1);
    assert_eq!(region.read_result(1, 1, 0), rgb(210, 120, 30));
}

#[test]
fn pixels_and_metadata_survive_a_cycle() {
    let pixels = [rgb(1, 1, 1), rgb(1, 1, 1), rgb(2, 2, 2), rgb(2, 2, 2)];
    let mut region = loaded_region(2, 2, &pixels);
    region.write_flag(Flag::InputReady);
    assert_eq!(region.poll_step(), Ok(PollOutcome::Produced));
    assert_eq!(region.read_rows(), 2);
    assert_eq!(region.read_columns(), 2);
    for row in 0..2usize {
        for col in 0..2usize {
            assert_eq!(region.read_pixel(2, 2, row, col), pixels[row * 2 + col]);
        }
    }
}

#[test]
fn no_more_input_acknowledges_and_finishes() {
    let mut region = Region::new(REGION_CAPACITY);
    region.write_flag(Flag::NoMoreInput);
    assert_eq!(region.poll_step(), Ok(PollOutcome::Finished));
    assert_eq!(region.read_flag(), 0);
}

#[test]
fn output_ready_is_not_the_workers_turn() {
    let mut region = Region::new(REGION_CAPACITY);
    region.write_dimensions(2, 2);
    region.write_flag(Flag::OutputReady);
    assert_eq!(region.poll_step(), Ok(PollOutcome::Waited));
    assert_eq!(region.read_flag(), 1);
    assert_eq!(region.read_rows(), 2);
}

#[test]
fn intermediate_is_not_the_workers_turn() {
    let mut region = Region::new(REGION_CAPACITY);
    region.write_flag(Flag::Intermediate);
    assert_eq!(region.poll_step(), Ok(PollOutcome::Waited));
    assert_eq!(region.read_flag(), 0);
}

#[test]
fn a_foreign_flag_byte_is_ignored() {
    let mut bytes = vec![0u8; 64];
    bytes[0] = 9;
    let mut region = Region::from_bytes(bytes);
    assert_eq!(region.poll_step(), Ok(PollOutcome::Waited));
    assert_eq!(region.read_flag(), 9);
}

#[test]
fn a_cycle_with_zero_columns_is_refused() {
    let mut region = Region::new(REGION_CAPACITY);
    region.write_dimensions(2, 0);
    region.write_flag(Flag::InputReady);
    assert_eq!(region.poll_step(), Err(CycleError::EmptyRow));
    assert_eq!(region.read_flag(), 1);
    assert_eq!(region.read_rows(), 2);
    assert_eq!(region.read_columns(), 0);
}

#[test]
fn an_oversize_image_is_refused() {
    let mut region = Region::new(16);
    region.write_dimensions(10, 10);
    region.write_flag(Flag::InputReady);
    assert_eq!(region.poll_step(), Err(CycleError::OversizeImage));
    assert_eq!(region.read_flag(), 1);
}

#[test]
fn a_zero_by_zero_image_is_a_trivial_cycle() {
    let mut region = Region::new(REGION_CAPACITY);
    region.write_flag(Flag::InputReady);
    assert_eq!(region.poll_step(), Ok(PollOutcome::Produced));
    assert_eq!(region.read_flag(), 1);
}

#[test]
fn region_bytes_round_trip() {
    let bytes = vec![2u8, 1, 1, 9, 9, 9, 0, 0, 0];
    let region = Region::from_bytes(bytes.clone());
    assert_eq!(region.into_bytes(), bytes);
}
