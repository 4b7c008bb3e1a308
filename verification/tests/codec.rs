use hc12_at::baudrate::BaudRate;
use hc12_at::channel::Channel;
use hc12_at::command::{MakeCommand, ToCommand};
use hc12_at::mode::Mode;
use hc12_at::query::{Param, ToQuery};
use hc12_at::transmission_power::TransmissionPower;

#[test]
fn set_baudrate_command() {
    let mut buffer = [0u8; 16];
    let baudrate = BaudRate::Bps115200;
    let c = baudrate.make_command(&mut buffer);
    assert_eq!(b"AT+B115200\r\n", c)
}

#[test]
fn set_baudrate_command_every_rate() {
    let rates = [
        (BaudRate::Bps1200, &b"AT+B1200\r\n"[..]),
        (BaudRate::Bps2400, &b"AT+B2400\r\n"[..]),
        (BaudRate::Bps4800, &b"AT+B4800\r\n"[..]),
        (BaudRate::Bps9600, &b"AT+B9600\r\n"[..]),
        (BaudRate::Bps19200, &b"AT+B19200\r\n"[..]),
        (BaudRate::Bps38400, &b"AT+B38400\r\n"[..]),
        (BaudRate::Bps57600, &b"AT+B57600\r\n"[..]),
        (BaudRate::Bps115200, &b"AT+B115200\r\n"[..]),
    ];
    let mut buffer = [0u8; 16];
    for (rate, expected) in rates.iter() {
        let c = rate.make_command(&mut buffer);
        assert_eq!(*expected, c);
    }
}

#[test]
fn set_channel_command() {
    let mut buffer = [0u8; 16];
    for i in 1..128 {
        let channel = Channel::new(i).unwrap();
        let c = channel.make_command(&mut buffer);
        assert_eq!(format!("AT+C{:0width$}\r\n", i, width = 3).as_bytes(), c);
    }
}

#[test]
fn set_mode_command() {
    let mut buffer = [0u8; 16];
    let modes = [Mode::Fu1, Mode::Fu2, Mode::Fu3, Mode::Fu4];
    for (index, mode) in modes.iter().enumerate() {
        let expected = format!("AT+FU{}\r\n", index + 1);
        let com = mode.make_command(&mut buffer);
        assert_eq!(expected.as_bytes(), com);
    }
}

#[test]
fn set_power_command() {
    let mut buffer = [0u8; 16];
    for power in 1..9 {
        let p = TransmissionPower::new(power).unwrap();
        let c = p.make_command(&mut buffer);
        let expected = format!("AT+P{}\r\n", power);
        assert_eq!(expected.as_bytes(), c);
    }
}

#[test]
fn to_command_returns_length() {
    let mut buffer = [0u8; 16];
    let n = BaudRate::Bps115200.to_command(&mut buffer);
    assert_eq!(b"AT+B115200\r\n", &buffer[0..n]);
    let n = Channel::new(7).unwrap().to_command(&mut buffer);
    assert_eq!(b"AT+C007\r\n", &buffer[0..n]);
    let n = Mode::Fu1.to_command(&mut buffer);
    assert_eq!(b"AT+FU1\r\n", &buffer[0..n]);
    let n = TransmissionPower::new(8).unwrap().to_command(&mut buffer);
    assert_eq!(b"AT+P8\r\n", &buffer[0..n]);
}

#[test]
fn query_single_param() {
    let mut buffer = [0u8; 16];
    let n = BaudRate::make_query(&mut buffer);
    assert_eq!(b"AT+RB\r\n", &buffer[..n]);
    let n = Channel::make_query(&mut buffer);
    assert_eq!(b"AT+RC\r\n", &buffer[..n]);
    let n = Mode::make_query(&mut buffer);
    assert_eq!(b"AT+RF\r\n", &buffer[..n]);
    let n = TransmissionPower::make_query(&mut buffer);
    assert_eq!(b"AT+RP\r\n", &buffer[..n]);
}

#[test]
fn query_by_param_kind() {
    let mut buffer = [0u8; 16];
    let n = Param::BaudRate.to_query(&mut buffer);
    assert_eq!(b"AT+RB\r\n", &buffer[..n]);
    let n = Param::Channel.to_query(&mut buffer);
    assert_eq!(b"AT+RC\r\n", &buffer[..n]);
    let n = Param::Mode.to_query(&mut buffer);
    assert_eq!(b"AT+RF\r\n", &buffer[..n]);
    let n = Param::Power.to_query(&mut buffer);
    assert_eq!(b"AT+RP\r\n", &buffer[..n]);
    let n = Param::Version.to_query(&mut buffer);
    assert_eq!(b"AT+V\r\n", &buffer[..n]);
}

#[test]
fn parse_baudrate() {
    let response = b"OK+B9600\r\n";
    let rate = BaudRate::decode(&response[..]).unwrap();
    assert_eq!(BaudRate::Bps9600, rate);
    let response = b"OK+B115200\r\n";
    let rate = BaudRate::decode(&response[..]).unwrap();
    assert_eq!(BaudRate::Bps115200, rate);
    let response = b"OK+B1200\r\n";
    let rate = BaudRate::decode(&response[..]).unwrap();
    assert_eq!(BaudRate::Bps1200, rate);
}

#[test]
fn parse_baudrate_from_i32() {
    let baudrates = [1200, 2400, 4800, 9600, 19200, 38400, 57600, 115200];
    let expected = [
        BaudRate::Bps1200,
        BaudRate::Bps2400,
        BaudRate::Bps4800,
        BaudRate::Bps9600,
        BaudRate::Bps19200,
        BaudRate::Bps38400,
        BaudRate::Bps57600,
        BaudRate::Bps115200,
    ];
    let result: Vec<BaudRate> = baudrates
        .iter()
        .map(|x| BaudRate::try_from(*x).unwrap())
        .collect();
    assert_eq!(&expected, &result[..]);
}

#[test]
fn parse_baudrate_rejects_malformed_lines() {
    // wrong identifier
    assert!(BaudRate::decode(&b"OK+C9600\r\n"[..]).is_err());
    // missing terminator
    assert!(BaudRate::decode(&b"OK+B9600"[..]).is_err());
    // not a legal rate
    assert!(BaudRate::decode(&b"OK+B9601\r\n"[..]).is_err());
    // a leading zero is not the canonical rate
    assert!(BaudRate::decode(&b"OK+B09600\r\n"[..]).is_err());
    // empty payload
    assert!(BaudRate::decode(&b"OK+B\r\n"[..]).is_err());
    // payload far too large for any rate
    assert!(BaudRate::decode(&b"OK+B99999999999999\r\n"[..]).is_err());
}

#[test]
fn parse_channel() {
    let response = b"OK+RC005\r\n";
    let channel = Channel::new(5).unwrap();
    assert_eq!(Channel::decode(&response[..]).unwrap(), channel);
    let response = b"OK+RC100\r\n";
    let channel = Channel::new(100).unwrap();
    assert_eq!(Channel::decode(&response[..]).unwrap(), channel);
    let response = b"OK+RC099\r\n";
    let channel = Channel::new(99).unwrap();
    assert_eq!(Channel::decode(&response[..]).unwrap(), channel);
}

#[test]
fn parse_channel_error() {
    let response = b"OK+RC000\r\n";
    assert!(Channel::decode(&response[..]).is_err());
}

#[test]
fn parse_channel_rejects_malformed_lines() {
    // value above the channel range
    assert!(Channel::decode(&b"OK+RC128\r\n"[..]).is_err());
    // two digits instead of three
    assert!(Channel::decode(&b"OK+RC07\r\n"[..]).is_err());
    // a non-digit in the payload
    assert!(Channel::decode(&b"OK+RC0a7\r\n"[..]).is_err());
    // wrong identifier
    assert!(Channel::decode(&b"OK+RB005\r\n"[..]).is_err());
}

#[test]
fn parse_mode() {
    let response = b"OK+FU1\r\n";
    let mode = Mode::Fu1;
    assert_eq!(Mode::decode(&response[..]).unwrap(), mode);
    let response = b"OK+FU2\r\n";
    let mode = Mode::Fu2;
    assert_eq!(Mode::decode(&response[..]).unwrap(), mode);
    let response = b"OK+FU3\r\n";
    let mode = Mode::Fu3;
    assert_eq!(Mode::decode(&response[..]).unwrap(), mode);
    let response = b"OK+FU4\r\n";
    let mode = Mode::Fu4;
    assert_eq!(Mode::decode(&response[..]).unwrap(), mode);
}

#[test]
fn parse_mode_error() {
    let response = b"OK+FU5\r\n";
    assert!(Mode::decode(&response[..]).is_err());
}

#[test]
fn parse_power() {
    let response = b"OK+RP:-1dBm\r\n";
    let power = TransmissionPower::new(1).unwrap();
    assert_eq!(TransmissionPower::decode(&response[..]).unwrap(), power);
    let response = b"OK+RP:+20dBm\r\n";
    let power = TransmissionPower::new(8).unwrap();
    assert_eq!(TransmissionPower::decode(&response[..]).unwrap(), power);
    let response = b"OK+RP:+5dBm\r\n";
    let power = TransmissionPower::new(3).unwrap();
    assert_eq!(TransmissionPower::decode(&response[..]).unwrap(), power);
}

#[test]
fn parse_power_error() {
    let response = b"OK+RP:-2dBm\r\n";
    assert!(TransmissionPower::decode(&response[..]).is_err());
}

#[test]
fn parse_power_accepts_unsigned_table_values() {
    let power = TransmissionPower::new(8).unwrap();
    assert_eq!(TransmissionPower::decode(&b"OK+RP:20dBm\r\n"[..]).unwrap(), power);
}

#[test]
fn parse_power_rejects_malformed_lines() {
    // missing the dBm suffix
    assert!(TransmissionPower::decode(&b"OK+RP:+20\r\n"[..]).is_err());
    // sign without digits
    assert!(TransmissionPower::decode(&b"OK+RP:+dBm\r\n"[..]).is_err());
    // more than three digits
    assert!(TransmissionPower::decode(&b"OK+RP:+0020dBm\r\n"[..]).is_err());
    // a non-digit in the payload
    assert!(TransmissionPower::decode(&b"OK+RP:+2xdBm\r\n"[..]).is_err());
}
