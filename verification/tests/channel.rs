use theme_render::channel::null_fn;
use theme_render::channel::render_to_channel;
use theme_render::channel::run_cycle;
use theme_render::channel::OutputChannel;
use theme_render::profile::InstanceInfo;
use theme_render::profile::ProfileData;

fn profile() -> ProfileData {
    ProfileData {
        instance_info: InstanceInfo { url: "https://example.com".to_string() },
        handle: "alice".to_string(),
        display_name: None,
        tags: vec![],
        bio: None,
        social_links: vec![],
        links: vec![],
        pages: vec![],
    }
}

#[test]
fn render_read_release_cycle() {
    let p = profile();
    let mut ch = OutputChannel::new();
    assert!(ch.output().is_none());

    assert!(render_to_channel(&mut ch, &p, b"{{handle}}"));
    assert_eq!(ch.output().unwrap(), "alice");
    ch.release_output();
    assert!(ch.output().is_none());

    // A second full cycle behaves exactly like the first.
    assert!(render_to_channel(&mut ch, &p, b"hi {{handle}}"));
    assert_eq!(ch.output().unwrap(), "hi alice");
    ch.release_output();
    assert!(ch.output().is_none());
}

#[test]
fn faulted_render_leaves_prior_output() {
    let p = profile();
    let mut ch = OutputChannel::new();
    assert!(render_to_channel(&mut ch, &p, b"first"));
    assert_eq!(ch.output().unwrap(), "first");

    // Invalid UTF-8 theme: the call faults, no fresh output, the prior one stays.
    assert!(!render_to_channel(&mut ch, &p, &[0xff, 0xfe]));
    assert_eq!(ch.output().unwrap(), "first");

    ch.release_output();
    assert!(ch.output().is_none());
}

#[test]
fn faulted_render_on_empty_channel_stores_nothing() {
    let p = profile();
    let mut ch = OutputChannel::new();
    assert!(!render_to_channel(&mut ch, &p, &[0x80]));
    assert!(ch.output().is_none());
}

#[test]
fn run_cycle_hands_back_the_stored_text() {
    let mut ch = OutputChannel::new();
    let r = run_cycle(&mut ch, "rendered".to_string());
    assert_eq!(r, "rendered");
    assert!(ch.output().is_none());
}

#[test]
fn overwrite_orphans_the_prior_output() {
    let p = profile();
    let mut ch = OutputChannel::new();
    assert!(render_to_channel(&mut ch, &p, b"one"));
    assert!(render_to_channel(&mut ch, &p, b"two"));
    assert_eq!(ch.output().unwrap(), "two");
    ch.release_output();
    assert!(ch.output().is_none());
}

#[test]
fn null_release_action_does_nothing() {
    null_fn();
}
