//! SkyRizz E32 (ESP32-S3-WROOM-1-N16R8) board pin map.
//!
//! Board-level notes:
//! - `GPIO43` / `U0TXD` is wired to the XL9535 `INT#` line.
//! - `GPIO44` / `U0RXD` is reused as the shared SPI clock for TF + GT30L24A3W.
//! - `GPIO0` is both the BOOT strap and the shared audio `BCLK` line.
//! - GT30L24A3W `CS#` is inverted from the TF `CS` signal through `Q5`.
//! - PCB external headers are silked as `IO 1` (`C_P0`), `I2C` (`C_I2C`),
//!   `IO 2` (`C_P1-3`), and `IO 3` (`C_P4-7`).
use vstd::prelude::*;

verus! {

/// Shared I2C bus of the board.
#[derive(Clone, Copy, Debug, PartialEq, Eq, Structural)]
pub struct I2cBusPins {
    pub sda: u8,
    pub scl: u8,
    pub int_n: u8,
}

/// PCB silk `IO 1` / connector `C_P0`.
#[derive(Clone, Copy, Debug, PartialEq, Eq, Structural)]
pub struct ExternalIo1Pins {
    pub p0: u8,
}

/// PCB silk `I2C` / connector `C_I2C`.
#[derive(Clone, Copy, Debug, PartialEq, Eq, Structural)]
pub struct ExternalI2cHeaderPins {
    pub sda: u8,
    pub scl: u8,
}

/// WS2812-style RGB LED chain.
#[derive(Clone, Copy, Debug, PartialEq, Eq, Structural)]
pub struct RgbLedPins {
    pub data: u8,
    pub led_count: u8,
}

/// User / indicator LED, driven through the XL9535.
#[derive(Clone, Copy, Debug, PartialEq, Eq, Structural)]
pub struct UserLedPins {
    pub drive_iox: Xl9535Pin,
}

/// Local switches and push buttons, read through the XL9535.
#[derive(Clone, Copy, Debug, PartialEq, Eq, Structural)]
pub struct LocalInputPins {
    pub sw1: Xl9535Pin,
    pub sw2: Xl9535Pin,
    pub sw3: Xl9535Pin,
    pub pb1: Xl9535Pin,
    pub pb2: Xl9535Pin,
}

/// Camera flex connector `FPC3`.
#[derive(Clone, Copy, Debug, PartialEq, Eq, Structural)]
pub struct CameraPins {
    pub vsync: u8,
    pub href: u8,
    pub xclk: u8,
    pub pclk: u8,
    pub d2: u8,
    pub d3: u8,
    pub d4: u8,
    pub d5: u8,
    pub d6: u8,
    pub d7: u8,
    pub d8: u8,
    pub d9: u8,
    pub siod: u8,
    pub sioc: u8,
    pub reset_iox: Xl9535Pin,
}

/// LCD flex connector `FPC1`.
#[derive(Clone, Copy, Debug, PartialEq, Eq, Structural)]
pub struct LcdPins {
    pub sclk: u8,
    pub mosi: u8,
    pub cs: u8,
    pub dc: u8,
    pub backlight_iox: Xl9535Pin,
}

/// TSC2007 touch controller.
#[derive(Clone, Copy, Debug, PartialEq, Eq, Structural)]
pub struct TouchPins {
    pub irq: u8,
    pub sda: u8,
    pub scl: u8,
    pub reset_iox: Xl9535Pin,
}

/// ES7243E audio ADC and NS4168 amplifier.
#[derive(Clone, Copy, Debug, PartialEq, Eq, Structural)]
pub struct AudioPins {
    pub mclk: u8,
    pub bclk: u8,
    pub lrck: u8,
    pub dout: u8,
    pub din: u8,
}

/// Shared SPI3 bus of the TF socket and the GT30L24A3W.
#[derive(Clone, Copy, Debug, PartialEq, Eq, Structural)]
pub struct Spi3Pins {
    pub tf_cs: u8,
    pub miso: u8,
    pub mosi: u8,
    pub sclk: u8,
}

/// PCB silk `IO 2` / connector `C_P1-3`.
#[derive(Clone, Copy, Debug, PartialEq, Eq, Structural)]
pub struct ExternalIo2Pins {
    pub p1: Xl9535Pin,
    pub p2: Xl9535Pin,
    pub p3: Xl9535Pin,
    pub sda: u8,
    pub scl: u8,
    pub int_n: u8,
}

/// PCB silk `IO 3` / connector `C_P4-7`.
#[derive(Clone, Copy, Debug, PartialEq, Eq, Structural)]
pub struct ExternalIo3Pins {
    pub p4: Xl9535Pin,
    pub p5: Xl9535Pin,
    pub p6: Xl9535Pin,
    pub p7: Xl9535Pin,
    pub sda: u8,
    pub scl: u8,
    pub int_n: u8,
}

/// Board nets on the XL9535 16-bit I/O expander.
///
/// The port code of a net (`Pxy` written as the number `xy`: 0 to 7 on
/// port 0, 10 to 17 on port 1) is given by [`Xl9535Pin::code`]; use that,
/// not `as u8`, which gives the declaration index instead.
#[derive(Clone, Copy, Debug, PartialEq, Eq, Structural)]
pub enum Xl9535Pin {
    LcdBlk,
    TsRst,
    CamRst,
    SeRst,
    P9,
    P10,
    P11,
    P1,
    P6,
    P7,
    P8,
    P5,
    P4,
    P3,
    P2,
    UserLed,
}

/// The expander port pin of each net, `Pxy` written as the number `xy`
/// (port `x` is 0 or 1, bit `y` is 0 to 7).
pub open spec fn spec_xl9535_code(pin: Xl9535Pin) -> u8 {
    match pin {
        Xl9535Pin::LcdBlk => 0,
        Xl9535Pin::TsRst => 1,
        Xl9535Pin::CamRst => 2,
        Xl9535Pin::SeRst => 3,
        Xl9535Pin::P9 => 4,
        Xl9535Pin::P10 => 5,
        Xl9535Pin::P11 => 6,
        Xl9535Pin::P1 => 7,
        Xl9535Pin::P6 => 10,
        Xl9535Pin::P7 => 11,
        Xl9535Pin::P8 => 12,
        Xl9535Pin::P5 => 13,
        Xl9535Pin::P4 => 14,
        Xl9535Pin::P3 => 15,
        Xl9535Pin::P2 => 16,
        Xl9535Pin::UserLed => 17,
    }
}

impl Xl9535Pin {
    /// The expander port pin that carries this net, `Pxy` written as the
    /// number `xy`: 0 to 7 on port 0, 10 to 17 on port 1.
    pub fn code(self) -> (c: u8)
        ensures
            c == spec_xl9535_code(self),
    {
        match self {
            Xl9535Pin::LcdBlk => 0,
            Xl9535Pin::TsRst => 1,
            Xl9535Pin::CamRst => 2,
            Xl9535Pin::SeRst => 3,
            Xl9535Pin::P9 => 4,
            Xl9535Pin::P10 => 5,
            Xl9535Pin::P11 => 6,
            Xl9535Pin::P1 => 7,
            Xl9535Pin::P6 => 10,
            Xl9535Pin::P7 => 11,
            Xl9535Pin::P8 => 12,
            Xl9535Pin::P5 => 13,
            Xl9535Pin::P4 => 14,
            Xl9535Pin::P3 => 15,
            Xl9535Pin::P2 => 16,
            Xl9535Pin::UserLed => 17,
        }
    }
}

pub const PIN_USB_DN: u8 = 19;
pub const PIN_USB_DP: u8 = 20;

pub const PIN_I2C_SDA: u8 = 47;
pub const PIN_I2C_SCL: u8 = 48;
pub const PIN_XL9535_INT: u8 = 43;

pub const PIN_TOUCH_INT: u8 = 2;
pub const PIN_RGB_LED: u8 = 46;
pub const RGB_LED_COUNT: u8 = 2;
pub const PIN_EXT_P0: u8 = 1;

pub const PIN_LCD_SCLK: u8 = 12;
pub const PIN_LCD_MOSI: u8 = 21;
pub const PIN_LCD_CS: u8 = 14;
pub const PIN_LCD_DC: u8 = 13;

pub const PIN_CAM_VSYNC: u8 = 4;
pub const PIN_CAM_HREF: u8 = 5;
pub const PIN_CAM_XCLK: u8 = 7;
pub const PIN_CAM_PCLK: u8 = 17;
pub const PIN_CAM_D2: u8 = 8;
pub const PIN_CAM_D3: u8 = 10;
pub const PIN_CAM_D4: u8 = 11;
pub const PIN_CAM_D5: u8 = 9;
pub const PIN_CAM_D6: u8 = 18;
pub const PIN_CAM_D7: u8 = 16;
pub const PIN_CAM_D8: u8 = 15;
pub const PIN_CAM_D9: u8 = 6;

pub const PIN_AUDIO_MCLK: u8 = 3;
pub const PIN_AUDIO_BCLK: u8 = 0;
pub const PIN_AUDIO_LRCK: u8 = 38;
pub const PIN_AUDIO_DOUT: u8 = 45;
pub const PIN_AUDIO_DIN: u8 = 39;

pub const PIN_TF_CS: u8 = 40;
pub const PIN_SPI3_MISO: u8 = 41;
pub const PIN_SPI3_MOSI: u8 = 42;
pub const PIN_SPI3_SCLK: u8 = 44;

pub const PIN_UNUSED_35: u8 = 35;
pub const PIN_UNUSED_36: u8 = 36;
pub const PIN_UNUSED_37: u8 = 37;

pub const XL9535_I2C_ADDRESS: u8 = 0x20;
pub const PIN_USER_LED_IOX: Xl9535Pin = Xl9535Pin::UserLed;
pub const PIN_SW1_IOX: Xl9535Pin = Xl9535Pin::P8;
pub const PIN_SW2_IOX: Xl9535Pin = Xl9535Pin::P9;
pub const PIN_SW3_IOX: Xl9535Pin = Xl9535Pin::P7;
pub const PIN_PB1_IOX: Xl9535Pin = Xl9535Pin::P10;
pub const PIN_PB2_IOX: Xl9535Pin = Xl9535Pin::P11;

/// GPIOs that are not routed on the PCB (reachable with a pogo fixture).
pub const UNUSED_ONBOARD: [u8; 3] = [PIN_UNUSED_35, PIN_UNUSED_36, PIN_UNUSED_37];

/// The shared I2C bus.
#[verifier::allow_in_spec]
pub fn i2c_bus() -> I2cBusPins
    returns
        (I2cBusPins { sda: PIN_I2C_SDA, scl: PIN_I2C_SCL, int_n: PIN_XL9535_INT }),
{
    I2cBusPins { sda: PIN_I2C_SDA, scl: PIN_I2C_SCL, int_n: PIN_XL9535_INT }
}

/// PCB silk `IO 1` / connector `C_P0`.
#[verifier::allow_in_spec]
pub fn ext_io1() -> ExternalIo1Pins
    returns
        (ExternalIo1Pins { p0: PIN_EXT_P0 }),
{
    ExternalIo1Pins { p0: PIN_EXT_P0 }
}

/// PCB silk `I2C` / connector `C_I2C`.
#[verifier::allow_in_spec]
pub fn ext_i2c() -> ExternalI2cHeaderPins
    returns
        (ExternalI2cHeaderPins { sda: PIN_I2C_SDA, scl: PIN_I2C_SCL }),
{
    ExternalI2cHeaderPins { sda: PIN_I2C_SDA, scl: PIN_I2C_SCL }
}

/// The RGB LED chain.
#[verifier::allow_in_spec]
pub fn rgb_leds() -> RgbLedPins
    returns
        (RgbLedPins { data: PIN_RGB_LED, led_count: RGB_LED_COUNT }),
{
    RgbLedPins { data: PIN_RGB_LED, led_count: RGB_LED_COUNT }
}

/// The user / indicator LED.
#[verifier::allow_in_spec]
pub fn user_led() -> UserLedPins
    returns
        (UserLedPins { drive_iox: PIN_USER_LED_IOX }),
{
    UserLedPins { drive_iox: PIN_USER_LED_IOX }
}

/// The local switches and buttons.
#[verifier::allow_in_spec]
pub fn local_inputs() -> LocalInputPins
    returns
        (LocalInputPins {
            sw1: PIN_SW1_IOX,
            sw2: PIN_SW2_IOX,
            sw3: PIN_SW3_IOX,
            pb1: PIN_PB1_IOX,
            pb2: PIN_PB2_IOX,
        }),
{
    LocalInputPins {
        sw1: PIN_SW1_IOX,
        sw2: PIN_SW2_IOX,
        sw3: PIN_SW3_IOX,
        pb1: PIN_PB1_IOX,
        pb2: PIN_PB2_IOX,
    }
}

/// The camera connector; SCCB runs on the shared I2C bus.
#[verifier::allow_in_spec]
pub fn camera() -> CameraPins
    returns
        (CameraPins {
            vsync: PIN_CAM_VSYNC,
            href: PIN_CAM_HREF,
            xclk: PIN_CAM_XCLK,
            pclk: PIN_CAM_PCLK,
            d2: PIN_CAM_D2,
            d3: PIN_CAM_D3,
            d4: PIN_CAM_D4,
            d5: PIN_CAM_D5,
            d6: PIN_CAM_D6,
            d7: PIN_CAM_D7,
            d8: PIN_CAM_D8,
            d9: PIN_CAM_D9,
            siod: PIN_I2C_SDA,
            sioc: PIN_I2C_SCL,
            reset_iox: Xl9535Pin::CamRst,
        }),
{
    CameraPins {
        vsync: PIN_CAM_VSYNC,
        href: PIN_CAM_HREF,
        xclk: PIN_CAM_XCLK,
        pclk: PIN_CAM_PCLK,
        d2: PIN_CAM_D2,
        d3: PIN_CAM_D3,
        d4: PIN_CAM_D4,
        d5: PIN_CAM_D5,
        d6: PIN_CAM_D6,
        d7: PIN_CAM_D7,
        d8: PIN_CAM_D8,
        d9: PIN_CAM_D9,
        siod: PIN_I2C_SDA,
        sioc: PIN_I2C_SCL,
        reset_iox: Xl9535Pin::CamRst,
    }
}

/// The LCD connector.
#[verifier::allow_in_spec]
pub fn lcd() -> LcdPins
    returns
        (LcdPins {
            sclk: PIN_LCD_SCLK,
            mosi: PIN_LCD_MOSI,
            cs: PIN_LCD_CS,
            dc: PIN_LCD_DC,
            backlight_iox: Xl9535Pin::LcdBlk,
        }),
{
    LcdPins {
        sclk: PIN_LCD_SCLK,
        mosi: PIN_LCD_MOSI,
        cs: PIN_LCD_CS,
        dc: PIN_LCD_DC,
        backlight_iox: Xl9535Pin::LcdBlk,
    }
}

/// The touch controller.
#[verifier::allow_in_spec]
pub fn touch() -> TouchPins
    returns
        (TouchPins {
            irq: PIN_TOUCH_INT,
            sda: PIN_I2C_SDA,
            scl: PIN_I2C_SCL,
            reset_iox: Xl9535Pin::TsRst,
        }),
{
    TouchPins { irq: PIN_TOUCH_INT, sda: PIN_I2C_SDA, scl: PIN_I2C_SCL, reset_iox: Xl9535Pin::TsRst }
}

/// The audio path.
#[verifier::allow_in_spec]
pub fn audio() -> AudioPins
    returns
        (AudioPins {
            mclk: PIN_AUDIO_MCLK,
            bclk: PIN_AUDIO_BCLK,
            lrck: PIN_AUDIO_LRCK,
            dout: PIN_AUDIO_DOUT,
            din: PIN_AUDIO_DIN,
        }),
{
    AudioPins {
        mclk: PIN_AUDIO_MCLK,
        bclk: PIN_AUDIO_BCLK,
        lrck: PIN_AUDIO_LRCK,
        dout: PIN_AUDIO_DOUT,
        din: PIN_AUDIO_DIN,
    }
}

/// The shared SPI3 bus.
#[verifier::allow_in_spec]
pub fn spi3() -> Spi3Pins
    returns
        (Spi3Pins { tf_cs: PIN_TF_CS, miso: PIN_SPI3_MISO, mosi: PIN_SPI3_MOSI, sclk: PIN_SPI3_SCLK }),
{
    Spi3Pins { tf_cs: PIN_TF_CS, miso: PIN_SPI3_MISO, mosi: PIN_SPI3_MOSI, sclk: PIN_SPI3_SCLK }
}

/// PCB silk `IO 2` / connector `C_P1-3`.
#[verifier::allow_in_spec]
pub fn ext_io2() -> ExternalIo2Pins
    returns
        (ExternalIo2Pins {
            p1: Xl9535Pin::P1,
            p2: Xl9535Pin::P2,
            p3: Xl9535Pin::P3,
            sda: PIN_I2C_SDA,
            scl: PIN_I2C_SCL,
            int_n: PIN_XL9535_INT,
        }),
{
    ExternalIo2Pins {
        p1: Xl9535Pin::P1,
        p2: Xl9535Pin::P2,
        p3: Xl9535Pin::P3,
        sda: PIN_I2C_SDA,
        scl: PIN_I2C_SCL,
        int_n: PIN_XL9535_INT,
    }
}

/// PCB silk `IO 3` / connector `C_P4-7`.
#[verifier::allow_in_spec]
pub fn ext_io3() -> ExternalIo3Pins
    returns
        (ExternalIo3Pins {
            p4: Xl9535Pin::P4,
            p5: Xl9535Pin::P5,
            p6: Xl9535Pin::P6,
            p7: Xl9535Pin::P7,
            sda: PIN_I2C_SDA,
            scl: PIN_I2C_SCL,
            int_n: PIN_XL9535_INT,
        }),
{
    ExternalIo3Pins {
        p4: Xl9535Pin::P4,
        p5: Xl9535Pin::P5,
        p6: Xl9535Pin::P6,
        p7: Xl9535Pin::P7,
        sda: PIN_I2C_SDA,
        scl: PIN_I2C_SCL,
        int_n: PIN_XL9535_INT,
    }
}

/// The native GPIO of every net that the board routes to the ESP32-S3, one
/// entry per net; the nets of the shared I2C bus appear once.
pub open spec fn routed_native_gpios() -> Seq<u8> {
    seq![
        PIN_USB_DN, PIN_USB_DP,
        i2c_bus().sda, i2c_bus().scl, i2c_bus().int_n,
        touch().irq, rgb_leds().data, ext_io1().p0,
        lcd().sclk, lcd().mosi, lcd().cs, lcd().dc,
        camera().vsync, camera().href, camera().xclk, camera().pclk,
        camera().d2, camera().d3, camera().d4, camera().d5,
        camera().d6, camera().d7, camera().d8, camera().d9,
        audio().mclk, audio().bclk, audio().lrck, audio().dout, audio().din,
        spi3().tf_cs, spi3().miso, spi3().mosi, spi3().sclk,
    ]
}

/// Every routed net of the board sits on its own ESP32-S3 GPIO (GPIO0 to
/// GPIO48), and the pads left unrouted are none of them.
pub proof fn routed_gpios_are_distinct_and_valid()
    ensures
        routed_native_gpios().no_duplicates(),
        forall|i: int| 0 <= i < routed_native_gpios().len() ==> routed_native_gpios()[i] <= 48,
        forall|k: int| 0 <= k < 3 ==> !routed_native_gpios().contains(#[trigger] UNUSED_ONBOARD@[k]),
        forall|k: int| 0 <= k < 3 ==> UNUSED_ONBOARD@[k] <= 48,
{
    let s = routed_native_gpios();
    assert(s.len() == 33);
    assert forall|i: int, j: int| 0 <= i < s.len() && 0 <= j < s.len() && i != j implies s[i] != s[j] by {
    }
    assert forall|k: int| 0 <= k < 3 implies !s.contains(#[trigger] UNUSED_ONBOARD@[k]) by {
        if s.contains(UNUSED_ONBOARD@[k]) {
            let i = choose|i: int| 0 <= i < s.len() && s[i] == UNUSED_ONBOARD@[k];
            assert(s[i] == UNUSED_ONBOARD@[k]);
        }
    }
}

/// Distinct expander nets sit on distinct XL9535 port pins, and every code
/// names a real pin of the part (port 0 or 1, bit 0 to 7).
pub proof fn xl9535_codes_distinct_and_valid(a: Xl9535Pin, b: Xl9535Pin)
    ensures
        spec_xl9535_code(a) == spec_xl9535_code(b) ==> a == b,
        spec_xl9535_code(a) / 10 <= 1,
        spec_xl9535_code(a) % 10 <= 7,
{
}

/// The expander net of every board function that goes through the XL9535,
/// one entry per function; `SW3` is left out, it is the `IO 3.P7` net.
pub open spec fn expander_functions() -> Seq<Xl9535Pin> {
    seq![
        user_led().drive_iox,
        local_inputs().sw1, local_inputs().sw2, local_inputs().pb1, local_inputs().pb2,
        camera().reset_iox, lcd().backlight_iox, touch().reset_iox,
        ext_io2().p1, ext_io2().p2, ext_io2().p3,
        ext_io3().p4, ext_io3().p5, ext_io3().p6, ext_io3().p7,
    ]
}

/// No two board functions share an expander pin, except `SW3`, which is
/// wired to the external `IO 3.P7` net.
pub proof fn expander_functions_are_distinct()
    ensures
        expander_functions().no_duplicates(),
        local_inputs().sw3 == ext_io3().p7,
{
    let s = expander_functions();
    assert forall|i: int, j: int| 0 <= i < s.len() && 0 <= j < s.len() && i != j implies s[i] != s[j] by {
    }
}

/// Every device and header on the shared I2C bus uses `GPIO47` (SDA) and
/// `GPIO48` (SCL); `IO 2` and `IO 3` also carry the XL9535 `INT#` line on
/// `GPIO43`, and `IO 1` is the direct native `GPIO1` breakout.
pub proof fn shared_i2c_bus_is_consistent()
    ensures
        i2c_bus().sda == 47 && i2c_bus().scl == 48 && i2c_bus().int_n == 43,
        ext_i2c().sda == i2c_bus().sda && ext_i2c().scl == i2c_bus().scl,
        touch().sda == i2c_bus().sda && touch().scl == i2c_bus().scl,
        camera().siod == i2c_bus().sda && camera().sioc == i2c_bus().scl,
        ext_io2().sda == i2c_bus().sda && ext_io2().scl == i2c_bus().scl,
        ext_io2().int_n == i2c_bus().int_n,
        ext_io3().sda == i2c_bus().sda && ext_io3().scl == i2c_bus().scl,
        ext_io3().int_n == i2c_bus().int_n,
        ext_io1().p0 == 1,
{
}

} // verus!
