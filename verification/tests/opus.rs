use opusic_c::{frame_bytes_size, Channels, ErrorCode, SampleRate};
use opusic_c::{Bitrate, Application, Bandwidth, Signal, InbandFec, FrameDuration};
use opusic_c::{Decoder, Encoder};
use opusic_c::mem::Unique;
use opusic_c::dred::{Dred, DredPacket, DRED_PACKET_SIZE};
use opusic_c::multistream;
use opusic_c::multistream::Config;
use opusic_c::repacketizer::{Repacketizer, MAX_FRAME_BYTES};

#[test]
fn should_verify_frame_size_utils() {
    assert_eq!(frame_bytes_size(SampleRate::Hz48000, Channels::Mono, 120), 5760);
    assert_eq!(frame_bytes_size(SampleRate::Hz48000, Channels::Stereo, 120), 11520);
}

#[test]
fn frame_size_ten_ms_is_rate_per_hundred() {
    let rates = [
        (SampleRate::Hz8000, 8000usize),
        (SampleRate::Hz12000, 12000),
        (SampleRate::Hz16000, 16000),
        (SampleRate::Hz24000, 24000),
        (SampleRate::Hz48000, 48000),
    ];
    for (rate, hz) in rates {
        assert_eq!(frame_bytes_size(rate, Channels::Mono, 10), hz / 100);
        assert_eq!(frame_bytes_size(rate, Channels::Stereo, 10), hz * 2 / 100);
    }
    assert_eq!(frame_bytes_size(SampleRate::Hz48000, Channels::Stereo, 10), 960);
}

#[test]
fn frame_size_twenty_ms() {
    assert_eq!(frame_bytes_size(SampleRate::Hz48000, Channels::Stereo, 20), 1920);
    assert_eq!(frame_bytes_size(SampleRate::Hz48000, Channels::Mono, 20), 960);
}

#[test]
fn error_codes_cover_the_native_status_set() {
    assert_eq!(ErrorCode::from_native(0), ErrorCode::NoError);
    assert_eq!(ErrorCode::from_native(-1), ErrorCode::BadArg);
    assert_eq!(ErrorCode::from_native(-2), ErrorCode::BufferTooSmall);
    assert_eq!(ErrorCode::from_native(-3), ErrorCode::Internal);
    assert_eq!(ErrorCode::from_native(-4), ErrorCode::InvalidPacket);
    assert_eq!(ErrorCode::from_native(-5), ErrorCode::Unimplemented);
    assert_eq!(ErrorCode::from_native(-6), ErrorCode::InvalidState);
    assert_eq!(ErrorCode::from_native(-7), ErrorCode::AllocFail);
    assert_eq!(ErrorCode::from_native(-200), ErrorCode::Unknown);
    assert_eq!(ErrorCode::from_native(17), ErrorCode::Unknown);
}

#[test]
fn error_messages() {
    assert_eq!(ErrorCode::NoError.message(), "No error");
    assert_eq!(
        ErrorCode::BadArg.message(),
        "One or more invalid/out of range arguments"
    );
    assert_eq!(ErrorCode::AllocFail.message(), "Memory allocation has failed");
    assert_eq!(
        ErrorCode::InvalidState.message(),
        "An encoder or decoder structure is invalid or already freed"
    );
    assert_eq!(
        ErrorCode::InvalidPacket.message(),
        "The compressed data passed is corrupted"
    );
    assert_eq!(
        ErrorCode::BufferTooSmall.message(),
        "Not enough bytes allocated in the buffer"
    );
    assert_eq!(ErrorCode::Internal.message(), "An internal error was detected");
    assert_eq!(
        ErrorCode::Unimplemented.message(),
        "Invalid/unsupported request number"
    );
    assert_eq!(ErrorCode::Unknown.message(), "Unknown error");
}

#[test]
fn status_mapping() {
    assert_eq!(opusic_c::map_status(-1), Err(ErrorCode::BadArg));
    assert_eq!(opusic_c::map_status(-4), Err(ErrorCode::InvalidPacket));
    assert_eq!(opusic_c::map_status(0), Ok(0));
    assert_eq!(opusic_c::map_status(312), Ok(312));
    assert_eq!(opusic_c::ctl_done(0), Ok(()));
    assert_eq!(opusic_c::ctl_done(-1), Err(ErrorCode::BadArg));
    assert_eq!(opusic_c::ctl_done(-6), Err(ErrorCode::InvalidState));
}

#[test]
fn flag_and_width_conversions() {
    assert!(opusic_c::native_flag(1));
    assert!(!opusic_c::native_flag(0));
    assert!(!opusic_c::native_flag(2));
    assert_eq!(opusic_c::flag_to_native(true), 1);
    assert_eq!(opusic_c::flag_to_native(false), 0);
    assert_eq!(opusic_c::native_u8(5), 5);
    assert_eq!(opusic_c::native_u32(312), 312);
    assert_eq!(opusic_c::native_look_ahead(312), Ok(312));
    assert_eq!(opusic_c::native_look_ahead(-5), Err(ErrorCode::Unknown));
    assert_eq!(opusic_c::native_pitch(0), None);
    assert_eq!(opusic_c::native_pitch(441), Some(441));
}

#[test]
fn packet_length_conversions() {
    assert_eq!(opusic_c::packet_len_to_native(3), Ok(3));
    assert_eq!(opusic_c::packet_len_to_native(0x7fff_ffff), Ok(0x7fff_ffff));
    assert_eq!(
        opusic_c::packet_len_to_native(0x8000_0000usize),
        Err(ErrorCode::BadArg)
    );
    assert_eq!(opusic_c::sample_query_len_to_native(1277), Ok(1277));
    assert_eq!(
        opusic_c::sample_query_len_to_native(0x8000_0000usize),
        Err(ErrorCode::InvalidPacket)
    );
    assert_eq!(opusic_c::frame_index_to_native(4), Ok(4));
    assert_eq!(
        opusic_c::frame_index_to_native(u32::MAX),
        Err(ErrorCode::BadArg)
    );
}

#[test]
fn bitrate_conversions() {
    assert_eq!(Bitrate::from_native(-1000), Bitrate::Auto);
    assert_eq!(Bitrate::from_native(-1), Bitrate::Max);
    assert_eq!(Bitrate::from_native(120000), Bitrate::Value(120000));
    assert_eq!(Bitrate::from_native(4083200), Bitrate::Value(4083200));
    assert_eq!(Bitrate::Auto.to_native(), -1000);
    assert_eq!(Bitrate::Max.to_native(), -1);
    assert_eq!(Bitrate::Value(144000).to_native(), 144000);
}

#[test]
fn application_conversions() {
    assert_eq!(Application::from_native(2048), Ok(Application::Voip));
    assert_eq!(Application::from_native(2049), Ok(Application::Audio));
    assert_eq!(Application::from_native(2051), Ok(Application::LowDelay));
    assert_eq!(Application::from_native(2050), Err(ErrorCode::Unknown));
    assert_eq!(Application::Voip.to_native(), 2048);
    assert_eq!(Application::Audio.to_native(), 2049);
    assert_eq!(Application::LowDelay.to_native(), 2051);
}

#[test]
fn bandwidth_conversions() {
    assert_eq!(Bandwidth::from_native(1101), Bandwidth::Narrow);
    assert_eq!(Bandwidth::from_native(1102), Bandwidth::Medium);
    assert_eq!(Bandwidth::from_native(1103), Bandwidth::Wide);
    assert_eq!(Bandwidth::from_native(1104), Bandwidth::Superwide);
    assert_eq!(Bandwidth::from_native(1105), Bandwidth::Full);
    assert_eq!(Bandwidth::from_native(-1000), Bandwidth::Auto);
    assert_eq!(Bandwidth::from_native(7), Bandwidth::Auto);
    assert_eq!(Bandwidth::Auto.to_native(), -1000);
    assert_eq!(Bandwidth::Superwide.to_native(), 1104);
}

#[test]
fn signal_conversions() {
    assert_eq!(Signal::from_native(3001), Signal::Voice);
    assert_eq!(Signal::from_native(3002), Signal::Music);
    assert_eq!(Signal::from_native(-1000), Signal::Auto);
    assert_eq!(Signal::from_native(0), Signal::Auto);
    assert_eq!(Signal::Auto.to_native(), -1000);
    assert_eq!(Signal::Voice.to_native(), 3001);
    assert_eq!(Signal::Music.to_native(), 3002);
}

#[test]
fn inband_fec_conversions() {
    assert_eq!(InbandFec::from_native(0), Ok(InbandFec::Off));
    assert_eq!(InbandFec::from_native(1), Ok(InbandFec::Mode1));
    assert_eq!(InbandFec::from_native(2), Ok(InbandFec::Mode2));
    assert_eq!(InbandFec::from_native(3), Err(ErrorCode::Unknown));
    assert_eq!(InbandFec::Mode2.to_native(), 2);
}

#[test]
fn frame_duration_conversions() {
    assert_eq!(FrameDuration::from_native(5000), Ok(FrameDuration::SizeArg));
    assert_eq!(FrameDuration::from_native(5001), Ok(FrameDuration::Size2_5));
    assert_eq!(FrameDuration::from_native(5003), Ok(FrameDuration::Size10));
    assert_eq!(FrameDuration::from_native(5009), Ok(FrameDuration::Size120));
    assert_eq!(FrameDuration::from_native(5010), Err(ErrorCode::Unknown));
    assert_eq!(FrameDuration::SizeArg.to_native(), 5000);
    assert_eq!(FrameDuration::Size10.to_native(), 5003);
    assert_eq!(FrameDuration::Size120.to_native(), 5009);
}

#[test]
fn sample_rate_conversions() {
    assert_eq!(SampleRate::from_native(8000), Ok(SampleRate::Hz8000));
    assert_eq!(SampleRate::from_native(12000), Ok(SampleRate::Hz12000));
    assert_eq!(SampleRate::from_native(16000), Ok(SampleRate::Hz16000));
    assert_eq!(SampleRate::from_native(24000), Ok(SampleRate::Hz24000));
    assert_eq!(SampleRate::from_native(48000), Ok(SampleRate::Hz48000));
    assert_eq!(SampleRate::from_native(44100), Err(ErrorCode::Unknown));
    assert_eq!(SampleRate::Hz48000.to_native(), 48000);
    assert_eq!(SampleRate::Hz8000.to_native(), 8000);
}

#[test]
fn forced_channel_conversions() {
    assert_eq!(Channels::from_force_native(1), Some(Channels::Mono));
    assert_eq!(Channels::from_force_native(2), Some(Channels::Stereo));
    assert_eq!(Channels::from_force_native(-1000), None);
    assert_eq!(Channels::force_to_native(Some(Channels::Mono)), 1);
    assert_eq!(Channels::force_to_native(Some(Channels::Stereo)), 2);
    assert_eq!(Channels::force_to_native(None), -1000);
    assert_eq!(Channels::Mono.to_native(), 1);
    assert_eq!(Channels::Stereo.to_native(), 2);
}

#[test]
fn storage_records_its_size() {
    let block = Unique::new(100).expect("reserve storage");
    assert_eq!(block.size(), 100);
    // one header word plus thirteen words covering one hundred bytes
    assert_eq!(block.words().len(), 14);
    assert_eq!(block.words()[0], 100);

    let empty = Unique::new(0).expect("reserve empty storage");
    assert_eq!(empty.size(), 0);
    assert_eq!(empty.words().len(), 1);
}

#[test]
fn storage_rejects_sizes_past_the_ceiling() {
    assert!(Unique::new(usize::MAX).is_none());
    assert!(Unique::new(isize::MAX as usize).is_none());
}

#[test]
fn decoder_construction_decisions() {
    let err = Decoder::<2>::reserve(0).expect_err("zero reported size");
    assert_eq!(err, ErrorCode::Internal);
    let err = Decoder::<1>::reserve(usize::MAX).expect_err("past the ceiling");
    assert_eq!(err, ErrorCode::AllocFail);
    let mut decoder = Decoder::<2>::reserve(26580).expect("reserve storage");
    assert_eq!(decoder.storage().size(), 26580);
    assert_eq!(decoder.storage_mut().size(), 26580);
    assert_eq!(Decoder::<2>::channels(), Channels::Stereo);
    assert_eq!(Decoder::<1>::channels(), Channels::Mono);
    assert_eq!(Decoder::<2>::frame_count(1920), 960);
    assert_eq!(Decoder::<1>::frame_count(1920), 1920);
}

#[test]
fn encoder_construction_decisions() {
    let err = Encoder::<1>::reserve(0).expect_err("zero reported size");
    assert_eq!(err, ErrorCode::Internal);
    let err = Encoder::<2>::reserve(usize::MAX).expect_err("past the ceiling");
    assert_eq!(err, ErrorCode::AllocFail);
    let encoder = Encoder::<1>::reserve(14232).expect("reserve storage");
    assert_eq!(encoder.storage().size(), 14232);
    assert_eq!(Encoder::<1>::channels(), Channels::Mono);
    assert_eq!(Encoder::<2>::frame_count(960), 480);
}

#[test]
fn dred_packet_buffer_matches_fixed_size() {
    assert_eq!(DRED_PACKET_SIZE, 10592);
    let packet = DredPacket::new().expect("reserve packet buffer");
    assert_eq!(packet.storage().size(), DRED_PACKET_SIZE);
}

#[test]
fn dred_construction_decisions() {

    let decoder = Decoder::<2>::reserve(26580).expect("reserve decoder");
    let err = Dred::reserve(0, decoder).expect_err("zero reported size");
    assert_eq!(err, ErrorCode::Internal);

    let decoder = Decoder::<2>::reserve(26580).expect("reserve decoder");
    let mut dred = Dred::reserve(3160, decoder).expect("reserve DRED state");
    assert_eq!(dred.decoder().storage().size(), 26580);
    assert_eq!(dred.decoder_mut().storage().size(), 26580);
    let (state, decoder, packet) = dred.split_mut();
    assert_eq!(state.size(), 3160);
    assert_eq!(decoder.storage().size(), 26580);
    assert_eq!(packet.storage().size(), 10592);
}

#[test]
fn multistream_config_construction() {

    // valid two-channel configuration with the identity mapping
    let config = Config::<2>::new(2, 0, [0, 1]);
    assert_eq!(config.streams(), 2);
    assert_eq!(config.coupled_streams(), 0);
    assert_eq!(config.mapping(), &[0, 1]);

    // no streams at all
    assert!(Config::<2>::try_new(0, 0, [0, 1]).is_none());
    // more coupled streams than streams
    assert!(Config::<2>::try_new(1, 2, [0, 1]).is_none());
    // stream total past the channel count
    assert!(Config::<2>::try_new(2, 1, [0, 1]).is_none());
    assert!(Config::<2>::try_new(3, 0, [0, 1]).is_none());
    // mapping entry addressing a channel that does not exist
    assert!(Config::<2>::try_new(2, 0, [0, 2]).is_none());
    // the sentinel entry silences a channel and is always in range
    let silent = Config::<2>::try_new(2, 0, [0, 255]).expect("sentinel mapping");
    assert_eq!(silent.mapping(), &[0, 255]);

    let valid = Config::<2>::try_new(2, 0, [0, 1]).expect("valid configuration");
    assert_eq!(valid.streams(), 2);
    assert_eq!(valid.coupled_streams(), 0);
}

#[test]
fn multistream_config_mapping_access() {
    let mut config = Config::<4>::new(2, 2, [0, 1, 2, 3]);
    assert_eq!(config.mapping(), &[0, 1, 2, 3]);
    config.mapping_mut()[3] = 255;
    assert_eq!(config.mapping(), &[0, 1, 2, 255]);
    assert_eq!(config.streams(), 2);
    assert_eq!(config.coupled_streams(), 2);
}

#[test]
fn multistream_construction_decisions() {

    let err = multistream::Encoder::reserve(0).expect_err("zero reported size");
    assert_eq!(err, ErrorCode::Internal);
    let encoder = multistream::Encoder::reserve(29000).expect("reserve storage");
    assert_eq!(encoder.storage().size(), 29000);

    let err = multistream::Decoder::reserve(0, 2).expect_err("zero reported size");
    assert_eq!(err, ErrorCode::Internal);
    let err = multistream::Decoder::reserve(usize::MAX, 2).expect_err("past the ceiling");
    assert_eq!(err, ErrorCode::AllocFail);
    let decoder = multistream::Decoder::reserve(53000, 2).expect("reserve storage");
    assert_eq!(decoder.storage().size(), 53000);
    assert_eq!(decoder.channels(), 2);
    assert_eq!(decoder.frame_count(1920), 960);
}

#[test]
fn repacketizer_construction_decisions() {
    assert_eq!(MAX_FRAME_BYTES, 1277);
    let err = Repacketizer::reserve(0).expect_err("zero reported size");
    assert_eq!(err, ErrorCode::Internal);
    let repacketizer = Repacketizer::reserve(1000).expect("reserve storage");
    assert_eq!(repacketizer.storage().size(), 1000);
}
