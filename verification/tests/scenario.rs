use latency_test::audio::silence;
use latency_test::audio::to_sample;
use latency_test::audio::DECAY_RATE_PER_SECOND;
use latency_test::audio::SAMPLE_SCALE;
use latency_test::audio::TONE_FREQUENCY_HZ;
use latency_test::event::InputEvent;
use latency_test::event::MouseButton;
use latency_test::render_loop::InputRenderLoop;
use latency_test::trigger::TriggerFlag;
use std::f32::consts::TAU;

struct Tone {
    sample_interval: f32,
    phase: f32,
    elapsed: f32,
}

fn fill(tone: &mut Tone, trigger: &TriggerFlag, output: &mut [i16]) {
    silence(output);
    if trigger.take_and_clear() {
        tone.elapsed = 0.0;
    }
    for sample in output.iter_mut() {
        let oscillator = (TONE_FREQUENCY_HZ as f32 * TAU * tone.phase).sin();
        let envelope = (1.0 - tone.elapsed * DECAY_RATE_PER_SECOND as f32).max(0.0).powi(2);
        tone.phase += tone.sample_interval;
        tone.elapsed += tone.sample_interval;
        *sample = to_sample((oscillator * envelope * SAMPLE_SCALE as f32) as i64);
    }
    tone.phase = tone.phase.fract();
}

#[test]
fn four_samples_at_one_kilohertz_after_a_trigger() {
    let trigger = TriggerFlag::new();
    let mut tone = Tone { sample_interval: 1.0 / 1000.0, phase: 0.0, elapsed: 0.75 };
    let mut buffer: [i16; 4] = [1, 1, 1, 1];
    trigger.set();
    fill(&mut tone, &trigger, &mut buffer);
    assert_eq!(buffer, [0, 9770, -14355, 14527]);
    assert!(!trigger.take_and_clear());
}

#[test]
fn click_is_heard_in_the_next_buffer_only() {
    let trigger = TriggerFlag::new();
    let mut state = InputRenderLoop::new();
    let mut tone = Tone { sample_interval: 1.0 / 1000.0, phase: 0.0, elapsed: 1.0 };
    let mut buffer: [i16; 4] = [0; 4];

    fill(&mut tone, &trigger, &mut buffer);
    assert_eq!(buffer, [0, 0, 0, 0]);

    state.handle_event(InputEvent::MouseButtonDown { button: MouseButton::Left }, &trigger);
    tone.phase = 0.0;
    fill(&mut tone, &trigger, &mut buffer);
    assert_eq!(buffer, [0, 9770, -14355, 14527]);

    let mut later: [i16; 16] = [7; 16];
    fill(&mut tone, &trigger, &mut later);
    fill(&mut tone, &trigger, &mut later);
    assert_eq!(later, [0; 16]);
}
