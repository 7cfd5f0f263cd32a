use discovery::launcher::{LaunchAction, Launcher, COUNTDOWN_TICKS, TICK_US};
use discovery::punch::PunchMeter;
use discovery::reverse_echo::{Reply, ReverseEcho, CARRIAGE_RETURN};
use discovery::roulette::{ring, Image, Roulette};
use discovery::sensor_commands::{parse_command, CommandReader, CommandReply, Sensor};
use discovery::siren::{Frequency, Siren, SirenAction};
use discovery::turn_signal::{signal_round, DisplayStep, DEFAULT, LEFT_TURN, RIGHT_TURN};

fn lit_leds(image: &Image) -> Vec<(usize, usize)> {
    let mut lit = Vec::new();
    for r in 0..5 {
        for c in 0..5 {
            if image[r][c] == 1 {
                lit.push((r, c));
            } else {
                assert_eq!(image[r][c], 0);
            }
        }
    }
    lit
}

#[test]
fn roulette_lights_one_led_around_the_ring() {
    let coords = ring();
    let mut roulette = Roulette::new();
    for frame in 0..40 {
        let image = roulette.next_frame();
        let (r, c) = coords[frame % 16];
        assert_eq!(lit_leds(&image), vec![(r as usize, c as usize)]);
    }
}

#[test]
fn roulette_first_frames() {
    let mut roulette = Roulette::new();
    assert_eq!(lit_leds(&roulette.next_frame()), vec![(0, 0)]);
    assert_eq!(lit_leds(&roulette.next_frame()), vec![(0, 1)]);
    for _ in 2..15 {
        roulette.next_frame();
    }
    assert_eq!(lit_leds(&roulette.next_frame()), vec![(1, 0)]);
    assert_eq!(lit_leds(&roulette.next_frame()), vec![(0, 0)]);
}

#[test]
fn ring_walks_the_border_to_neighbours() {
    let coords = ring();
    assert_eq!(coords.len(), 16);
    for i in 0..16 {
        let (r1, c1) = coords[i];
        let (r2, c2) = coords[(i + 1) % 16];
        assert!(r1 == 0 || r1 == 4 || c1 == 0 || c1 == 4);
        let dist = (r1 as i32 - r2 as i32).abs() + (c1 as i32 - c2 as i32).abs();
        assert_eq!(dist, 1);
        for j in 0..16 {
            if i != j {
                assert_ne!(coords[i], coords[j]);
            }
        }
    }
}

#[test]
fn turn_signal_rounds() {
    let blink_left = vec![
        DisplayStep::Show(LEFT_TURN, 500),
        DisplayStep::Delay(500),
        DisplayStep::Clear,
        DisplayStep::Delay(500),
        DisplayStep::Delay(10),
    ];
    assert_eq!(signal_round(true, false), blink_left);
    assert_eq!(signal_round(true, true), blink_left);
    assert_eq!(
        signal_round(false, true),
        vec![
            DisplayStep::Show(RIGHT_TURN, 500),
            DisplayStep::Delay(500),
            DisplayStep::Clear,
            DisplayStep::Delay(500),
            DisplayStep::Delay(10),
        ]
    );
    assert_eq!(
        signal_round(false, false),
        vec![DisplayStep::Show(DEFAULT, 500), DisplayStep::Delay(10)]
    );
}

#[test]
fn arrows_are_mirror_images() {
    for r in 0..5 {
        for c in 0..5 {
            assert_eq!(RIGHT_TURN[r][c], LEFT_TURN[r][4 - c]);
        }
    }
    assert_eq!(lit_leds(&DEFAULT), vec![(2, 2)]);
}

#[test]
fn reverse_echo_reverses_a_line() {
    let mut program = ReverseEcho::new();
    for &b in b"hello" {
        assert_eq!(program.receive(b), Reply::Echo);
    }
    assert_eq!(program.receive(CARRIAGE_RETURN), Reply::Reversed(b"olleh".to_vec()));
    // the buffer is empty again
    assert_eq!(program.receive(b'\r'), Reply::Reversed(Vec::new()));
    assert_eq!(program.receive(b'x'), Reply::Echo);
    assert_eq!(program.receive(b'\r'), Reply::Reversed(b"x".to_vec()));
}

#[test]
fn reverse_echo_full_line_fits() {
    let mut program = ReverseEcho::new();
    let line: Vec<u8> = (0..32u8).map(|i| b'a' + (i % 26)).collect();
    for &b in &line {
        assert_eq!(program.receive(b), Reply::Echo);
    }
    let mut reversed = line.clone();
    reversed.reverse();
    assert_eq!(program.receive(b'\r'), Reply::Reversed(reversed));
}

#[test]
fn reverse_echo_overflow_reports_and_resets() {
    let mut program = ReverseEcho::new();
    let line: Vec<u8> = vec![b'z'; 32];
    for &b in &line {
        assert_eq!(program.receive(b), Reply::Echo);
    }
    assert_eq!(program.receive(b'!'), Reply::Overflow(line));
    assert_eq!(program.receive(b'a'), Reply::Echo);
    assert_eq!(program.receive(b'b'), Reply::Echo);
    assert_eq!(program.receive(b'\r'), Reply::Reversed(b"ba".to_vec()));
}

#[test]
fn commands_are_parsed() {
    assert_eq!(parse_command(b"acc"), Some(Sensor::Accelerometer));
    assert_eq!(parse_command(b"mag"), Some(Sensor::Magnetometer));
    assert_eq!(parse_command(b"ac"), None);
    assert_eq!(parse_command(b"Acc"), None);
    assert_eq!(parse_command(b"gam"), None);
    assert_eq!(parse_command(b""), None);
}

#[test]
fn command_reader_runs_commands() {
    let mut reader = CommandReader::new();
    for &b in b"acc" {
        assert_eq!(reader.receive(b), CommandReply::Echo);
    }
    assert_eq!(reader.receive(b'\r'), CommandReply::Read(Sensor::Accelerometer));
    for &b in b"mag" {
        assert_eq!(reader.receive(b), CommandReply::Echo);
    }
    assert_eq!(reader.receive(b'\r'), CommandReply::Read(Sensor::Magnetometer));
    for &b in b"xy" {
        assert_eq!(reader.receive(b), CommandReply::Echo);
    }
    assert_eq!(reader.receive(b'\r'), CommandReply::Unknown(b"xy".to_vec()));
    assert_eq!(reader.receive(b'\r'), CommandReply::Unknown(Vec::new()));
}

#[test]
fn command_reader_overflow_resets() {
    let mut reader = CommandReader::new();
    for &b in b"acc" {
        assert_eq!(reader.receive(b), CommandReply::Echo);
    }
    assert_eq!(reader.receive(b'x'), CommandReply::Overflow);
    assert_eq!(reader.receive(b'\r'), CommandReply::Unknown(Vec::new()));
    for &b in b"ma" {
        reader.receive(b);
    }
    assert_eq!(reader.receive(b'g'), CommandReply::Echo);
    assert_eq!(reader.receive(b'\r'), CommandReply::Read(Sensor::Magnetometer));
}

#[test]
fn punch_reported_once_after_excursion() {
    let mut meter = PunchMeter::new();
    assert_eq!(meter.on_sample(300), None);
    assert_eq!(meter.on_sample(1000), None);
    assert_eq!(meter.on_sample(1500), None);
    assert_eq!(meter.on_sample(2400), None);
    assert_eq!(meter.on_sample(1800), None);
    assert_eq!(meter.on_sample(1000), Some(1800));
    assert_eq!(meter.on_sample(-2000), None);
    assert_eq!(meter.on_sample(1001), None);
    assert_eq!(meter.on_sample(-5), Some(1001));
    assert_eq!(meter.on_sample(i32::MIN), None);
}

#[test]
fn siren_periods() {
    assert_eq!(Frequency::Hz440.hz(), 440);
    assert_eq!(Frequency::Hz660.hz(), 660);
    assert_eq!(Siren::period_us(Frequency::Hz440), 2272);
    assert_eq!(Siren::period_us(Frequency::Hz660), 1515);
    assert_eq!(Siren::half_period_cycles_from(Frequency::Hz440), 220);
    assert_eq!(Siren::half_period_cycles_from(Frequency::Hz660), 330);
}

#[test]
fn siren_toggles_then_switches() {
    let mut siren = Siren::new();
    assert_eq!(siren.update(), SirenAction::Idle);
    assert_eq!(siren.start(), 1136);
    for _ in 0..220 {
        assert_eq!(siren.update(), SirenAction::Toggle(1136));
    }
    assert_eq!(siren.update(), SirenAction::Switched);
    for _ in 0..330 {
        assert_eq!(siren.update(), SirenAction::Toggle(757));
    }
    assert_eq!(siren.update(), SirenAction::Switched);
    assert_eq!(siren.update(), SirenAction::Toggle(1136));
    siren.stop();
    assert_eq!(siren.update(), SirenAction::Idle);
}

#[test]
fn launcher_counts_down_then_launches() {
    let mut siren = Siren::new();
    siren.start();
    let mut launcher = Launcher::new();
    assert_eq!(launcher.start(), TICK_US);
    assert_eq!(launcher.ticks_left(), COUNTDOWN_TICKS);
    for expected in (1..=10u8).rev() {
        assert_eq!(launcher.ticks_left(), expected);
        assert_eq!(launcher.count_down(&mut siren), LaunchAction::Tick(1_000_000));
        assert_ne!(siren.update(), SirenAction::Idle);
    }
    assert_eq!(launcher.ticks_left(), 0);
    assert_eq!(launcher.count_down(&mut siren), LaunchAction::Launch);
    assert_eq!(siren.update(), SirenAction::Idle);
    assert_eq!(launcher.ticks_left(), 0);
}

#[test]
fn each_tone_lasts_a_quarter_second() {
    for freq in [Frequency::Hz440, Frequency::Hz660] {
        let total = Siren::half_period_cycles_from(freq) * (Siren::period_us(freq) / 2);
        assert!(249_000 <= total && total <= 250_000);
    }
}
