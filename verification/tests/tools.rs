use tester::adc::{to_nanovolts, volts_text, MeasureError};
use tester::esptool::{read_chip_id, read_mac_address, write_flash, ReadMacAddressResult};
use tester::serial::read_string;
use tester::log::{Level, LogCtx, LogLine};
use tester::options::{Environment, FlashWith, Options, OptionsError};
use tester::pio::{build, flash};
use tester::text::parse_u32;

fn env() -> Environment {
    Environment {
        build: None,
        flash_with: None,
        flash_baudrate: None,
        rpc_url: None,
        rpc_password: None,
        report_type: None,
        name: None,
        hostname: "bench-host".to_string(),
    }
}

#[test]
fn settings_fall_back_when_nothing_is_set() {
    assert_eq!(
        Options::parse(env()),
        Ok(Options {
            no_build: false,
            flash_with: FlashWith::ESPTool,
            flash_baudrate: 921600,
            rpc_url: "https://localhost:3000/api/rpc".to_string(),
            rpc_password: "password".to_string(),
            report_type: "json".to_string(),
            tester_name: "bench-host".to_string(),
        })
    );
}

#[test]
fn settings_are_taken_from_the_environment() {
    let given = Environment {
        build: Some("no".to_string()),
        flash_with: Some("pio".to_string()),
        flash_baudrate: Some("115200".to_string()),
        rpc_url: Some("http://c".to_string()),
        rpc_password: Some("pw".to_string()),
        report_type: Some("auxboard".to_string()),
        name: Some("t1".to_string()),
        hostname: "h".to_string(),
    };
    let options = Options::parse(given).unwrap();
    assert!(options.no_build);
    assert_eq!(options.flash_with, FlashWith::PlatformIO);
    assert_eq!(options.flash_baudrate, 115200);
    assert_eq!(options.rpc_url, "http://c");
    assert_eq!(options.report_type, "auxboard");
    assert_eq!(options.tester_name, "t1");
    let yes = Environment { build: Some("yes".to_string()), ..env() };
    assert!(!Options::parse(yes).unwrap().no_build);
}

#[test]
fn settings_that_cannot_be_read_are_errors() {
    let tool = Environment {
        flash_with: Some("dd".to_string()),
        flash_baudrate: Some("x".to_string()),
        ..env()
    };
    assert_eq!(Options::parse(tool), Err(OptionsError::FlashWith));
    let rate = Environment { flash_baudrate: Some("fast".to_string()), ..env() };
    assert_eq!(Options::parse(rate), Err(OptionsError::FlashBaudrate));
}

#[test]
fn numbers_are_read_as_the_standard_library_reads_them() {
    for text in ["0", "7", "+7", "007", "4294967295", "4294967296", "", "+", "-1", "1 ", "12a", "99999999999999999999"] {
        assert_eq!(parse_u32(text), text.parse::<u32>().ok(), "{:?}", text);
    }
}

#[test]
fn voltages_are_exact() {
    assert_eq!(to_nanovolts(1), 187_500);
    assert_eq!(to_nanovolts(21333), 3_999_937_500);
    assert_eq!(to_nanovolts(-2), -375_000);
    assert_eq!(volts_text(3_999_937_500), "3.9999375");
    assert_eq!(volts_text(4_000_000_000), "4.0");
    assert_eq!(volts_text(3_300_000_000), "3.3");
    assert_eq!(volts_text(0), "0.0");
    assert_eq!(volts_text(-375_000), "-0.000375");
    assert_eq!(volts_text(12_000_000_001), "12.000000001");
    assert_eq!(volts_text(i64::MIN), "-9223372036.854775808");
    assert_eq!(MeasureError::InvalidInput.note(), "err: invalid input data");
}

#[test]
fn address_is_read_from_the_first_line_that_names_it() {
    let output = "esptool.py v4\r\nChip is ESP8266EX\r\nMAC: 5c:cf:7f:01:02:03\r\nMAC: other\n";
    assert_eq!(
        read_mac_address(true, output),
        Ok(ReadMacAddressResult { mac: "5c:cf:7f:01:02:03".to_string(), log: output.to_string() })
    );
    assert_eq!(
        read_mac_address(true, "x MAC: a MAC: b").unwrap().mac,
        "a "
    );
    assert_eq!(read_mac_address(true, "MAC: last\r").unwrap().mac, "last\r");
}

#[test]
fn output_without_an_address_or_unclean_exit_is_an_error() {
    assert_eq!(read_mac_address(true, "nothing\nhere"), Err("No MAC address found".to_string()));
    assert_eq!(read_mac_address(true, "MAC:tight"), Err("No MAC address found".to_string()));
    assert_eq!(read_mac_address(true, ""), Err("No MAC address found".to_string()));
    assert_eq!(
        read_mac_address(false, "MAC: aa"),
        Err("`esptool` exited with non-zero exit code: MAC: aa".to_string())
    );
}

#[test]
fn tool_runs_are_judged_by_their_exit() {
    assert_eq!(write_flash(true, "done"), Ok("done".to_string()));
    assert_eq!(
        write_flash(false, "bad"),
        Err("`esptool` exited with non-zero exit code: bad".to_string())
    );
    assert_eq!(build(true, "x"), Ok(()));
    assert_eq!(build(false, "x"), Err("`pio` exited with non-zero exit code: x".to_string()));
    assert_eq!(flash(true, "up"), Ok("up".to_string()));
    assert_eq!(flash(false, "up"), Err("`pio` exited with non-zero exit code: up".to_string()));
}

#[test]
fn log_lines_carry_the_stack_of_stages() {
    let mut ctx = LogCtx::new();
    assert_eq!(
        ctx.info("hello"),
        LogLine { level: Level::Info, message: "hello".to_string(), context: "".to_string() }
    );
    let entered = ctx.enter("flash");
    assert_eq!(entered.level, Level::Enter);
    assert_eq!(entered.message, "Entering stage: flash");
    assert_eq!(entered.context, "[flash]");
    ctx.enter("verify");
    assert_eq!(ctx.context(), "[flash::verify]");
    assert_eq!(ctx.warn("w").level, Level::Warn);
    assert_eq!(ctx.error("e").level, Level::Error);
    assert_eq!(ctx.fatal("f").level, Level::Fatal);
    assert_eq!(ctx.debug("d").level, Level::Debug);
    assert_eq!(ctx.trace("t").context, "[flash::verify]");
    let left = ctx.leave();
    assert_eq!(left.message, "Leaving stage: verify");
    assert_eq!(left.context, "[flash]");
    ctx.leave();
    assert_eq!(ctx.context(), "");
}

#[test]
fn log_line_is_laid_out_in_columns() {
    let ctx = LogCtx::new();
    let line = ctx.info("hi");
    assert_eq!(line.text(), format!("{: <5} {: <40} {}", "INFO", "hi", ""));
    let mut deep = LogCtx::new();
    deep.enter("a");
    let long = "x".repeat(45);
    assert_eq!(deep.error(&long).text(), format!("{: <5} {: <40} {}", "ERROR", long, "[a]"));
    assert_eq!(Level::Enter.label(), "-->");
}

#[test]
fn chip_identifier_is_read_from_the_output() {
    assert_eq!(
        read_chip_id("Detecting chip type... ESP8266\nChip ID: 0x00a1b2c3\nHard resetting\n"),
        Some("0x00a1b2c3".to_string())
    );
    assert_eq!(read_chip_id("Chip ID:0x1"), None);
    assert_eq!(read_chip_id("MAC: aa"), None);
}

#[test]
fn chunk_is_decoded_and_stripped() {
    assert_eq!(read_string(b"ab\0c"), "abc");
    assert_eq!(read_string(&[0x68, 0xc3, 0xa9, 0xff]), "hé\u{fffd}");
    assert_eq!(read_string(b""), "");
}
