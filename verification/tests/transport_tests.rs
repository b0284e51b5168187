use eink_clock::art::get_name_for_hour12;
use eink_clock::config::{Address, Config};
use eink_clock::transport::{
    amixer_set_master_volume, aplay_audio_nonblocking, eips_show_image, play_audio_for_hour,
    Command, Operation, Payload, RemoteOp, Turn, CHIME_VOLUME, REMOTE_MODE,
};
use eink_clock::usb::{get_kindle, UsbId};

#[test]
fn refresh_command_lines() {
    assert_eq!(Command::Refresh { full: true }.line(), "/usr/sbin/eips -f -g /dev/shm/out.png");
    assert_eq!(Command::Refresh { full: false }.line(), "/usr/sbin/eips -g /dev/shm/out.png");
}

#[test]
fn volume_command_lines() {
    assert_eq!(Command::Volume { percent: 20 }.line(), "/usr/bin/amixer set Master 20%");
    assert_eq!(Command::Volume { percent: 0 }.line(), "/usr/bin/amixer set Master 0%");
    assert_eq!(Command::Volume { percent: 7 }.line(), "/usr/bin/amixer set Master 7%");
    assert_eq!(Command::Volume { percent: 100 }.line(), "/usr/bin/amixer set Master 100%");
    assert_eq!(Command::Volume { percent: 105 }.line(), "/usr/bin/amixer set Master 105%");
    assert_eq!(Command::Volume { percent: 255 }.line(), "/usr/bin/amixer set Master 255%");
}

#[test]
fn play_command_line() {
    assert_eq!(Command::Play.line(), "/usr/bin/aplay -v -N /dev/shm/out.wav");
}

#[test]
fn payloads_have_fixed_paths() {
    assert_eq!(Payload::Frame.path(), "/dev/shm/out.png");
    assert_eq!(Payload::Chime { hour12: 4 }.path(), "/dev/shm/out.wav");
    assert_eq!(REMOTE_MODE, 0o644);
}

#[test]
fn showing_an_image_copies_then_refreshes() {
    assert_eq!(
        eips_show_image(true),
        vec![RemoteOp::Copy(Payload::Frame), RemoteOp::Exec(Command::Refresh { full: true })]
    );
    assert_eq!(
        eips_show_image(false),
        vec![RemoteOp::Copy(Payload::Frame), RemoteOp::Exec(Command::Refresh { full: false })]
    );
}

#[test]
fn setting_the_volume_is_one_command() {
    assert_eq!(
        amixer_set_master_volume(35),
        vec![RemoteOp::Exec(Command::Volume { percent: 35 })]
    );
}

#[test]
fn playing_copies_the_clip_then_starts_the_player() {
    assert_eq!(
        aplay_audio_nonblocking(9),
        vec![RemoteOp::Copy(Payload::Chime { hour12: 9 }), RemoteOp::Exec(Command::Play)]
    );
}

#[test]
fn operations_expand_to_their_scripts() {
    assert_eq!(Operation::Deliver { full_refresh: true }.script(), eips_show_image(true));
    assert_eq!(Operation::SetVolume { percent: 20 }.script(), amixer_set_master_volume(20));
    assert_eq!(Operation::PlayAudio { hour12: 3 }.script(), aplay_audio_nonblocking(3));
}

#[test]
fn chime_sets_the_volume_then_plays() {
    assert_eq!(CHIME_VOLUME, 20);
    for hour12 in 1..=12u32 {
        assert_eq!(
            play_audio_for_hour(hour12 + 12, hour12),
            vec![Operation::SetVolume { percent: 20 }, Operation::PlayAudio { hour12 }]
        );
    }
}

#[test]
fn chime_of_no_hour_only_sets_the_volume() {
    assert_eq!(play_audio_for_hour(0, 0), vec![Operation::SetVolume { percent: 20 }]);
    assert_eq!(play_audio_for_hour(13, 13), vec![Operation::SetVolume { percent: 20 }]);
}

#[test]
fn every_hour_has_its_bird() {
    let names = [
        "Wren",
        "Tanager",
        "Northern Oriole",
        "Ruby-crowned Kinglet",
        "Tufted Titmouse",
        "Altamira Oriole",
        "Phoebe",
        "Red Breasted Nuthatch",
        "Mockingbird",
        "Flycatcher",
        "Vireo",
        "Great Horned Owl",
    ];
    for (i, name) in names.iter().enumerate() {
        assert_eq!(get_name_for_hour12(i as u32 + 1), *name);
    }
}

#[test]
fn no_hour_has_no_bird() {
    assert_eq!(get_name_for_hour12(0), "");
    assert_eq!(get_name_for_hour12(13), "");
    assert_eq!(get_name_for_hour12(u32::MAX), "");
}

#[test]
fn kindle_is_the_first_device_that_matches() {
    let wanted = UsbId { vendor: 0x0525, product: 0xa4a2 };
    let hub = UsbId { vendor: 0x1d6b, product: 0x0002 };
    let near = UsbId { vendor: 0x0525, product: 0xa4a1 };
    assert_eq!(get_kindle(&vec![], wanted), None);
    assert_eq!(get_kindle(&vec![hub, near], wanted), None);
    assert_eq!(get_kindle(&vec![wanted], wanted), Some(0));
    assert_eq!(get_kindle(&vec![hub, near, wanted, hub, wanted], wanted), Some(2));
}

#[test]
fn standard_settings() {
    let config = Config::standard();
    assert_eq!(config.device_address, Address { a: 192, b: 168, c: 2, d: 2 });
    assert_eq!(config.host_address, Address { a: 192, b: 168, c: 2, d: 1 });
    assert_eq!(config.prefix_len, 24);
    assert_eq!(config.device_port, 22);
    assert_eq!(config.username, "root");
    assert_eq!(config.password, "root");
    assert_eq!(config.connect_timeout_ms, 1000);
    assert_eq!(config.interface, "usb0");
    assert_eq!(config.device_id, UsbId { vendor: 0x0525, product: 0xa4a2 });
    assert_eq!(config.cache_ttl_secs, 300);
    assert_eq!(config.station, "KTPA");
    assert_eq!((config.width, config.height), (1200, 824));
}

#[test]
fn an_operation_begins_with_its_first_step() {
    let operations = [
        Operation::Deliver { full_refresh: true },
        Operation::Deliver { full_refresh: false },
        Operation::SetVolume { percent: 20 },
        Operation::PlayAudio { hour12: 7 },
    ];
    for operation in operations {
        assert_eq!(operation.first(), operation.script()[0]);
    }
}

#[test]
fn a_failed_copy_ends_the_delivery_before_the_refresh() {
    let deliver = Operation::Deliver { full_refresh: true };
    assert_eq!(deliver.first(), RemoteOp::Copy(Payload::Frame));
    assert_eq!(deliver.proceed(0, false), Turn::Failed);
}

#[test]
fn the_refresh_follows_a_copy_that_went_through() {
    for full in [false, true] {
        let deliver = Operation::Deliver { full_refresh: full };
        assert_eq!(deliver.proceed(0, true), Turn::Run(RemoteOp::Exec(Command::Refresh { full })));
        assert_eq!(deliver.proceed(1, true), Turn::Done);
        assert_eq!(deliver.proceed(1, false), Turn::Failed);
    }
}

#[test]
fn the_player_starts_only_after_the_clip_is_copied() {
    let play = Operation::PlayAudio { hour12: 11 };
    assert_eq!(play.first(), RemoteOp::Copy(Payload::Chime { hour12: 11 }));
    assert_eq!(play.proceed(0, false), Turn::Failed);
    assert_eq!(play.proceed(0, true), Turn::Run(RemoteOp::Exec(Command::Play)));
    assert_eq!(play.proceed(1, true), Turn::Done);
}

#[test]
fn an_operation_of_one_step_is_done_after_it() {
    let volume = Operation::SetVolume { percent: 20 };
    assert_eq!(volume.proceed(0, true), Turn::Done);
    assert_eq!(volume.proceed(0, false), Turn::Failed);
}

#[test]
fn past_the_last_step_nothing_is_left_to_run() {
    let deliver = Operation::Deliver { full_refresh: false };
    assert_eq!(deliver.proceed(2, true), Turn::Done);
    assert_eq!(deliver.proceed(usize::MAX, true), Turn::Done);
    assert_eq!(deliver.proceed(usize::MAX, false), Turn::Failed);
}

#[test]
fn following_the_turns_runs_the_whole_script() {
    let operations = [
        Operation::Deliver { full_refresh: true },
        Operation::SetVolume { percent: 5 },
        Operation::PlayAudio { hour12: 1 },
    ];
    for operation in operations {
        let mut ran = vec![operation.first()];
        let mut position = 0;
        while let Turn::Run(step) = operation.proceed(position, true) {
            ran.push(step);
            position += 1;
        }
        assert_eq!(operation.proceed(position, true), Turn::Done);
        assert_eq!(ran, operation.script());
    }
}
