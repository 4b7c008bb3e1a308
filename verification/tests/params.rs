use hc12_at::baudrate::{get_wireless_sensitivity_dbm as sensitivity_of, AirBaudRate, BaudRate};
use hc12_at::channel::Channel;
use hc12_at::mode::Mode;
use hc12_at::parameters::Parameters;
use hc12_at::transmission_power::TransmissionPower;

#[test]
fn baud_rate_set() {
    let mut params = Parameters::default();
    params.set_baud_rate(BaudRate::Bps115200).unwrap();
    assert_eq!(params.baud_rate, BaudRate::Bps115200);
    params.mode = Mode::Fu1;
    params.set_baud_rate(BaudRate::Bps1200).unwrap();
    assert_eq!(params.baud_rate, BaudRate::Bps1200);
    assert_eq!(params.get_air_baud_rate().unwrap(), AirBaudRate::Bps250000);

    params.mode = Mode::Fu2;
    params.set_baud_rate(BaudRate::Bps1200).unwrap();

    assert!(params.set_baud_rate(BaudRate::Bps115200).is_err());
}

#[test]
fn baud_rate_set_fu2_leaves_rate_unchanged() {
    let mut params = Parameters::default();
    params.mode = Mode::Fu2;
    params.set_baud_rate(BaudRate::Bps2400).unwrap();
    let result = params.set_baud_rate(BaudRate::Bps115200);
    assert!(matches!(result, Err(hc12_at::Error::InvalidBaudRate)));
    assert_eq!(params.baud_rate, BaudRate::Bps2400);
    params.set_baud_rate(BaudRate::Bps1200).unwrap();
    assert_eq!(params.baud_rate, BaudRate::Bps1200);
}

#[test]
fn baud_rate_set_fu4_unsupported() {
    let mut params = Parameters::default();
    params.mode = Mode::Fu4;
    let result = params.set_baud_rate(BaudRate::Bps9600);
    assert!(matches!(result, Err(hc12_at::Error::UnsupportedMode)));
    assert_eq!(params.baud_rate, BaudRate::Bps9600);
    assert!(matches!(
        params.get_air_baud_rate(),
        Err(hc12_at::Error::UnsupportedMode)
    ));
}

#[test]
fn baud_rate_to_primitive() {
    assert_eq!(1200, BaudRate::Bps1200.to_u32().unwrap());
    assert_eq!(2400, BaudRate::Bps2400.to_u32().unwrap());
    assert_eq!(4800, BaudRate::Bps4800.to_u32().unwrap());
    assert_eq!(9600, BaudRate::Bps9600.to_u32().unwrap());
    assert_eq!(19200, BaudRate::Bps19200.to_u32().unwrap());
    assert_eq!(38400, BaudRate::Bps38400.to_u32().unwrap());
    assert_eq!(57600, BaudRate::Bps57600.to_u32().unwrap());
    assert_eq!(115200, BaudRate::Bps115200.to_u32().unwrap());
}

#[test]
fn baud_rate_from_primitive() {
    assert_eq!(BaudRate::Bps1200, BaudRate::from_u32(1200).unwrap());
    assert_eq!(BaudRate::Bps2400, BaudRate::from_u32(2400).unwrap());
    assert_eq!(BaudRate::Bps4800, BaudRate::from_u32(4800).unwrap());
    assert_eq!(BaudRate::Bps9600, BaudRate::from_u32(9600).unwrap());
    assert_eq!(BaudRate::Bps19200, BaudRate::from_u32(19200).unwrap());
    assert_eq!(BaudRate::Bps38400, BaudRate::from_u32(38400).unwrap());
    assert_eq!(BaudRate::Bps57600, BaudRate::from_u32(57600).unwrap());
    assert_eq!(BaudRate::Bps115200, BaudRate::from_u32(115200).unwrap());
}

#[test]
fn baud_rate_from_primitive_rejects_other_values() {
    assert!(BaudRate::from_u32(0).is_none());
    assert!(BaudRate::from_u32(1199).is_none());
    assert!(BaudRate::from_u32(9601).is_none());
    assert!(BaudRate::from_u32(230400).is_none());
}

#[test]
fn get_air_baud_rate() {
    let air_rates = [
        AirBaudRate::Bps5000,
        AirBaudRate::Bps5000,
        AirBaudRate::Bps15000,
        AirBaudRate::Bps15000,
        AirBaudRate::Bps58000,
        AirBaudRate::Bps58000,
        AirBaudRate::Bps236000,
        AirBaudRate::Bps236000,
    ];

    let rates = [
        BaudRate::Bps1200,
        BaudRate::Bps2400,
        BaudRate::Bps4800,
        BaudRate::Bps9600,
        BaudRate::Bps19200,
        BaudRate::Bps38400,
        BaudRate::Bps57600,
        BaudRate::Bps115200,
    ];

    let mut params = Parameters::default();

    for (r, a) in rates.iter().zip(air_rates.iter()) {
        params.baud_rate = *r;
        assert_eq!(*a, params.get_air_baud_rate().unwrap());
    }
}

#[test]
fn air_baudrate_fu2() {
    let mut params = Parameters::default();
    params.mode = Mode::Fu2;

    assert_eq!(AirBaudRate::Bps250000, params.get_air_baud_rate().unwrap());
}

#[test]
fn air_baudrate_fu3_9600_is_15000() {
    let params = Parameters::default();
    assert_eq!(params.mode, Mode::Fu3);
    assert_eq!(params.baud_rate, BaudRate::Bps9600);
    assert_eq!(AirBaudRate::Bps15000, params.get_air_baud_rate().unwrap());
}

#[test]
fn air_baudrate_fu1_any_rate_is_250000() {
    let rates = [
        BaudRate::Bps1200,
        BaudRate::Bps2400,
        BaudRate::Bps4800,
        BaudRate::Bps9600,
        BaudRate::Bps19200,
        BaudRate::Bps38400,
        BaudRate::Bps57600,
        BaudRate::Bps115200,
    ];
    let mut params = Parameters::default();
    params.mode = Mode::Fu1;
    for r in rates.iter() {
        params.baud_rate = *r;
        assert_eq!(AirBaudRate::Bps250000, params.get_air_baud_rate().unwrap());
    }
}

#[test]
fn get_wireless_sensitivity_dbm() {
    let rate = AirBaudRate::Bps5000;
    assert_eq!(-117, rate.get_wireless_sensitivity_dbm());
    let rate = AirBaudRate::Bps15000;
    assert_eq!(-117, rate.get_wireless_sensitivity_dbm());
    let rate = AirBaudRate::Bps58000;
    assert_eq!(-112, rate.get_wireless_sensitivity_dbm());
    let rate = AirBaudRate::Bps236000;
    assert_eq!(-100, rate.get_wireless_sensitivity_dbm());
    let rate = AirBaudRate::Bps250000;
    assert_eq!(-100, rate.get_wireless_sensitivity_dbm());
}

#[test]
fn wireless_sensitivity_free_function_agrees() {
    assert_eq!(-117, sensitivity_of(AirBaudRate::Bps5000));
    assert_eq!(-112, sensitivity_of(AirBaudRate::Bps58000));
    assert_eq!(-100, sensitivity_of(AirBaudRate::Bps250000));
}

#[test]
fn get_power_dbm() {
    let dbm = [-1, 2, 5, 8, 11, 14, 17, 20];
    for (i, dbm) in dbm.iter().enumerate() {
        let power = TransmissionPower::new((i + 1) as u8).unwrap();
        assert_eq!(power.get_power_dbm(), *dbm);
    }
}

#[test]
fn get_power_milliwatt_hundredths() {
    let hundredths = [79, 158, 316, 631, 1259, 2512, 5012, 10000];
    for (i, mw) in hundredths.iter().enumerate() {
        let power = TransmissionPower::new((i + 1) as u8).unwrap();
        assert_eq!(power.get_power_milliwatt_hundredths(), *mw);
    }
}

#[test]
fn parse_power_from_i32() {
    let dbm = [-1, 2, 5, 8, 11, 14, 17, 20];

    for (i, dbm) in dbm.iter().enumerate() {
        let expected = TransmissionPower::new((i as u8) + 1).unwrap();
        let power = TransmissionPower::try_from(*dbm).unwrap();
        assert_eq!(expected, power);
    }
}

#[test]
fn power_rejects_levels_outside_range() {
    assert!(TransmissionPower::new(0).is_none());
    assert!(TransmissionPower::new(9).is_none());
    assert!(TransmissionPower::try_from(0).is_err());
    assert!(TransmissionPower::try_from(-2).is_err());
    assert!(TransmissionPower::try_from(21).is_err());
    let power = TransmissionPower::new(3).unwrap();
    assert_eq!(power.power(), 3);
}

#[test]
fn test_channel_invalid_channel() {
    let mut chan = Channel::default();
    assert!(chan.set_channel(0).is_err());
    assert!(chan.set_channel(89).is_ok());
    assert!(chan.set_channel(128).is_err());
    assert!(chan.set_channel(200).is_err());
}

#[test]
fn channel_new_bounds() {
    assert!(Channel::new(0).is_none());
    assert!(Channel::new(128).is_none());
    assert!(Channel::new(255).is_none());
    assert_eq!(Channel::new(1).unwrap().to_u8(), 1);
    assert_eq!(Channel::new(127).unwrap().to_u8(), 127);
}

#[test]
fn channel_get_freq_khz_default() {
    let chan = Channel::default();
    assert_eq!(433_400, chan.get_freq_khz());
}

#[test]
fn channel_get_freq_khz_100() {
    let chan = Channel::new(100).unwrap();
    assert_eq!(473_000, chan.get_freq_khz());
}

#[test]
fn channel_get_freq_khz_21() {
    let chan = Channel::new(21).unwrap();
    assert_eq!(441_400, chan.get_freq_khz());
}

#[test]
fn channel_set_channel_keeps_value_on_failure() {
    let mut chan = Channel::new(42).unwrap();
    assert!(chan.set_channel(150).is_err());
    assert_eq!(chan.to_u8(), 42);
    chan.set_channel(7).unwrap();
    assert_eq!(chan.to_u8(), 7);
}

#[test]
fn error_from_channel_error() {
    let e: hc12_at::Error = hc12_at::channel::ChannelError::InvalidChannel(200).into();
    assert!(matches!(e, hc12_at::Error::InvalidChannel(200)));
}

#[test]
fn default_parameters() {
    let params = Parameters::default();
    assert_eq!(params.baud_rate, BaudRate::Bps9600);
    assert_eq!(params.channel, Channel::new(1).unwrap());
    assert_eq!(params.power, TransmissionPower::new(8).unwrap());
    assert_eq!(params.mode, Mode::Fu3);
}
