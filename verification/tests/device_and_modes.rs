use sdrrat::device_kind::DeviceKind;
use sdrrat::radio::{RadioField, RadioMode};
use sdrrat::source::SourceField;
use sdrrat::command::{MODE_AM, MODE_NBFM, MODE_OFF, MODE_WBFM};

#[test]
fn device_labels_and_args() {
    assert_eq!(DeviceKind::RtlSdr.label(), "RTL-SDR");
    assert_eq!(DeviceKind::HackRf.label(), "HackRF");
    assert_eq!(DeviceKind::RtlSdr.open_args(), "driver=soapy,soapy_driver=rtlsdr");
    assert_eq!(DeviceKind::HackRf.open_args(), "driver=soapy,soapy_driver=hackrf");
    assert!(DeviceKind::RtlSdr.is_supported());
    assert!(DeviceKind::HackRf.is_supported());
    assert_eq!(DeviceKind::default(), DeviceKind::RtlSdr);
}

#[test]
fn device_ranges() {
    assert_eq!(DeviceKind::RtlSdr.freq_range(), (24_000_000, 1_766_000_000));
    assert_eq!(DeviceKind::HackRf.freq_range(), (1_000_000, 6_000_000_000));
}

#[test]
fn device_option_tables() {
    let rtl = DeviceKind::RtlSdr.sample_rate_options();
    assert_eq!(rtl.len(), 8);
    assert_eq!(rtl[0], 250_000);
    assert_eq!(rtl[DeviceKind::RtlSdr.default_sample_rate_idx()], 1_024_000);
    let hack = DeviceKind::HackRf.sample_rate_options();
    assert_eq!(hack.len(), 7);
    assert_eq!(hack[DeviceKind::HackRf.default_sample_rate_idx()], 2_000_000);
    assert_eq!(hack[6], 20_000_000);

    let rtl_g = DeviceKind::RtlSdr.gain_options_tenths();
    assert_eq!(rtl_g.len(), 29);
    assert_eq!(DeviceKind::RtlSdr.default_gain_idx(), 14);
    assert_eq!(rtl_g[14], 254);
    assert_eq!(rtl_g[28], 496);
    let hack_g = DeviceKind::HackRf.gain_options_tenths();
    assert_eq!(hack_g.len(), 52);
    assert_eq!(DeviceKind::HackRf.default_gain_idx(), 26);
    for (i, g) in hack_g.iter().enumerate() {
        assert_eq!(*g, 20 * i as i32);
    }
}

#[test]
fn device_cycle_is_invertible() {
    for d in [DeviceKind::RtlSdr, DeviceKind::HackRf] {
        assert_eq!(d.next().prev(), d);
        assert_eq!(d.prev().next(), d);
        assert_ne!(d.next(), d);
    }
    assert_eq!(DeviceKind::RtlSdr.next(), DeviceKind::HackRf);
    assert_eq!(DeviceKind::HackRf.next(), DeviceKind::RtlSdr);
}

#[test]
fn radio_mode_properties() {
    let all = [RadioMode::Off, RadioMode::WBFM, RadioMode::NBFM, RadioMode::AM];
    let labels = ["Off", "WBFM", "NBFM", "AM"];
    let codes = [MODE_OFF, MODE_WBFM, MODE_NBFM, MODE_AM];
    for (i, m) in all.iter().enumerate() {
        assert_eq!(m.label(), labels[i]);
        assert_eq!(m.code(), codes[i]);
        assert!(m.is_supported());
        assert_eq!(m.next().prev(), *m);
        assert_eq!(m.prev().next(), *m);
        assert_eq!(m.next().next().next().next(), *m);
        assert_eq!(m.bandwidth_hz().is_some(), *m != RadioMode::Off);
    }
    assert_eq!(codes, [0, 1, 2, 3]);
    assert_eq!(RadioMode::Off.next(), RadioMode::WBFM);
    assert_eq!(RadioMode::Off.prev(), RadioMode::AM);
    assert_eq!(RadioMode::WBFM.bandwidth_hz(), Some(200_000));
    assert_eq!(RadioMode::NBFM.bandwidth_hz(), Some(12_500));
    assert_eq!(RadioMode::AM.bandwidth_hz(), Some(10_000));
    assert_eq!(RadioMode::Off.bandwidth_hz(), None);
}

#[test]
fn radio_field_alternates() {
    assert_eq!(RadioField::Mode.next(), RadioField::Squelch);
    assert_eq!(RadioField::Squelch.next(), RadioField::Mode);
    assert_eq!(RadioField::Mode.prev(), RadioField::Squelch);
    assert_eq!(RadioField::Squelch.prev(), RadioField::Mode);
}

#[test]
fn source_field_cycle() {
    let order = [
        SourceField::Device,
        SourceField::SampleRate,
        SourceField::GainMode,
        SourceField::ManualGain,
        SourceField::Connect,
    ];
    for i in 0..5 {
        assert_eq!(order[i].next(), order[(i + 1) % 5]);
        assert_eq!(order[i].prev(), order[(i + 4) % 5]);
        assert_eq!(order[i].next().prev(), order[i]);
    }
}
