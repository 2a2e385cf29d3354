//! FIR filter configuration.

use vstd::prelude::*;

verus! {

/// Coefficients of the default band-pass filter (passband 3/20 fs to 1/4 fs).
pub open spec fn default_fir_coefficients() -> Seq<i16> {
    seq![
        -4i16, -6i16, -37i16, 35i16, 186i16, 86i16, -284i16, -315i16, 107i16, 219i16, -4i16,
        271i16, 558i16, -307i16, -1182i16, -356i16, 658i16, 157i16, 207i16, 1648i16, 790i16,
        -2525i16, -2553i16, 748i16, 865i16, -476i16, 3737i16, 6560i16, -3583i16, -14731i16,
        -5278i16, 14819i16, 14819i16, -5278i16, -14731i16, -3583i16, 6560i16, 3737i16, -476i16,
        865i16, 748i16, -2553i16, -2525i16, 790i16, 1648i16, 207i16, 157i16, 658i16, -356i16,
        -1182i16, -307i16, 558i16, 271i16, -4i16, 219i16, 107i16, -315i16, -284i16, 86i16,
        186i16, 35i16, -37i16, -6i16, -4i16,
    ]
}

/// The TX FIR filter configuration, in the layout that the driver takes.
#[derive(Clone, Copy, Debug)]
pub struct TxFirConfig {
    /// Channels the filter applies to: 1, 2 or 3 (both).
    pub tx: u32,
    /// Fixed gain, in dB.
    pub tx_gain: i32,
    /// FIR interpolation factor.
    pub tx_int: u32,
    /// Coefficient storage; only the first `tx_coef_size` are in use.
    pub tx_coef: [i16; 128],
    /// Number of coefficients in use.
    pub tx_coef_size: u8,
    /// Path clock frequencies.
    pub tx_path_clks: [u32; 6],
    /// Filter bandwidth.
    pub tx_bandwidth: u32,
}

/// Parameters used to configure the TX FIR filter.
///
/// The default value is a band-pass filter with a passband from 3/20 fs to
/// 1/4 fs.
#[derive(Clone, Copy, Debug)]
pub struct Ad9361TxFir(TxFirConfig);

impl View for Ad9361TxFir {
    type V = TxFirConfig;

    closed spec fn view(&self) -> TxFirConfig {
        self.0
    }
}

impl Ad9361TxFir {
    /// At most 128 coefficients are in use.
    pub open spec fn wf(&self) -> bool {
        self@.tx_coef_size <= 128
    }

    /// The coefficients in use.
    pub open spec fn coefficients(&self) -> Seq<i16> {
        self@.tx_coef@.subrange(0, self@.tx_coef_size as int)
    }

    /// The configuration as the driver takes it.
    pub fn config(&self) -> (r: TxFirConfig)
        ensures
            r == self@,
    {
        self.0
    }

    /// Builder method to set the fixed gain, in dB.
    #[must_use]
    pub fn tx_gain(self, value: i32) -> (r: Self)
        ensures
            r@ == (TxFirConfig { tx_gain: value, ..self@ }),
    {
        let mut r = self;
        r.0.tx_gain = value;
        r
    }

    /// The fixed gain, in dB.
    pub fn get_tx_gain(&self) -> (r: i32)
        ensures
            r == self@.tx_gain,
    {
        self.0.tx_gain
    }

    /// Builder method to set the fIR interpolation factor.
    #[must_use]
    pub fn tx_int(self, value: u32) -> (r: Self)
        ensures
            r@ == (TxFirConfig { tx_int: value, ..self@ }),
    {
        let mut r = self;
        r.0.tx_int = value;
        r
    }

    /// The fIR interpolation factor.
    pub fn get_tx_int(&self) -> (r: u32)
        ensures
            r == self@.tx_int,
    {
        self.0.tx_int
    }

    /// Builder method to set the coefficients. At most 128 coefficients
    /// can be held.
    #[must_use]
    pub fn tx_coef(self, coefficients: &[i16]) -> (r: Self)
        requires
            coefficients@.len() <= 128,
        ensures
            r.wf(),
            r.coefficients() == coefficients@,
            r@.tx_coef@.subrange(coefficients@.len() as int, 128) == self@.tx_coef@.subrange(
                coefficients@.len() as int,
                128,
            ),
            r@.tx == self@.tx,
            r@.tx_gain == self@.tx_gain,
            r@.tx_int == self@.tx_int,
            r@.tx_path_clks == self@.tx_path_clks,
            r@.tx_bandwidth == self@.tx_bandwidth,
    {
        let len = coefficients.len();
        let mut r = self;
        let mut i: usize = 0;
        while i < len
            invariant
                len == coefficients@.len(),
                len <= 128,
                i <= len,
                r@.tx_coef@.len() == 128,
                forall|k: int| 0 <= k < i ==> r@.tx_coef@[k] == coefficients@[k],
                forall|k: int| i <= k < 128 ==> r@.tx_coef@[k] == self@.tx_coef@[k],
                r@.tx == self@.tx,
                r@.tx_gain == self@.tx_gain,
                r@.tx_int == self@.tx_int,
                r@.tx_path_clks == self@.tx_path_clks,
                r@.tx_bandwidth == self@.tx_bandwidth,
            decreases len - i,
        {
            r.0.tx_coef[i] = coefficients[i];
            i = i + 1;
        }
        r.0.tx_coef_size = len as u8;
        assert(r.coefficients() =~= coefficients@);
        assert(r@.tx_coef@.subrange(len as int, 128) =~= self@.tx_coef@.subrange(len as int, 128));
        r
    }

    /// The coefficients in use.
    pub fn get_tx_coef(&self) -> (r: &[i16])
        requires
            self.wf(),
        ensures
            r@ == self.coefficients(),
    {
        let len = self.0.tx_coef_size as usize;
        self.0.tx_coef.as_slice().split_at(len).0
    }
}

impl Default for Ad9361TxFir {
    fn default() -> (r: Self)
        ensures
            r.wf(),
            r@.tx == 3,
            r@.tx_gain == -6,
            r@.tx_int == 1,
            r.coefficients() == default_fir_coefficients(),
            r@.tx_path_clks@ == seq![0u32, 0, 0, 0, 0, 0],
            r@.tx_bandwidth == 0,
    {
        let r = Ad9361TxFir(
            TxFirConfig {
                tx: 3,
                tx_gain: -6,
                tx_int: 1,
                tx_coef: [
                    -4, -6, -37, 35, 186, 86, -284, -315, 107, 219, -4, 271, 558, -307, -1182,
                    -356, 658, 157, 207, 1648, 790, -2525, -2553, 748, 865, -476, 3737, 6560,
                    -3583, -14731, -5278, 14819, 14819, -5278, -14731, -3583, 6560, 3737, -476,
                    865, 748, -2553, -2525, 790, 1648, 207, 157, 658, -356, -1182, -307, 558,
                    271, -4, 219, 107, -315, -284, 86, 186, 35, -37, -6, -4, 0, 0, 0, 0, 0, 0,
                    0, 0, 0, 0, 0, 0, 0, 0, 0, 0, 0, 0, 0, 0, 0, 0, 0, 0, 0, 0, 0, 0, 0, 0, 0,
                    0, 0, 0, 0, 0, 0, 0, 0, 0, 0, 0, 0, 0, 0, 0, 0, 0, 0, 0, 0, 0, 0, 0, 0, 0,
                    0, 0, 0, 0, 0, 0, 0, 0,
                ],
                tx_coef_size: 64,
                tx_path_clks: [0, 0, 0, 0, 0, 0],
                tx_bandwidth: 0,
            },
        );
        assert(r.coefficients() =~= default_fir_coefficients());
        r
    }
}

/// The RX FIR filter configuration, in the layout that the driver takes.
#[derive(Clone, Copy, Debug)]
pub struct RxFirConfig {
    /// Channels the filter applies to: 1, 2 or 3 (both).
    pub rx: u32,
    /// Fixed gain, in dB.
    pub rx_gain: i32,
    /// FIR decimation factor.
    pub rx_dec: u32,
    /// Coefficient storage; only the first `rx_coef_size` are in use.
    pub rx_coef: [i16; 128],
    /// Number of coefficients in use.
    pub rx_coef_size: u8,
    /// Path clock frequencies.
    pub rx_path_clks: [u32; 6],
    /// Filter bandwidth.
    pub rx_bandwidth: u32,
}

/// Parameters used to configure the RX FIR filter.
///
/// The default value is a band-pass filter with a passband from 3/20 fs to
/// 1/4 fs.
#[derive(Clone, Copy, Debug)]
pub struct Ad9361RxFir(RxFirConfig);

impl View for Ad9361RxFir {
    type V = RxFirConfig;

    closed spec fn view(&self) -> RxFirConfig {
        self.0
    }
}

impl Ad9361RxFir {
    /// At most 128 coefficients are in use.
    pub open spec fn wf(&self) -> bool {
        self@.rx_coef_size <= 128
    }

    /// The coefficients in use.
    pub open spec fn coefficients(&self) -> Seq<i16> {
        self@.rx_coef@.subrange(0, self@.rx_coef_size as int)
    }

    /// The configuration as the driver takes it.
    pub fn config(&self) -> (r: RxFirConfig)
        ensures
            r == self@,
    {
        self.0
    }

    /// Builder method to set the fixed gain, in dB.
    #[must_use]
    pub fn rx_gain(self, value: i32) -> (r: Self)
        ensures
            r@ == (RxFirConfig { rx_gain: value, ..self@ }),
    {
        let mut r = self;
        r.0.rx_gain = value;
        r
    }

    /// The fixed gain, in dB.
    pub fn get_rx_gain(&self) -> (r: i32)
        ensures
            r == self@.rx_gain,
    {
        self.0.rx_gain
    }

    /// Builder method to set the fIR decimation factor.
    #[must_use]
    pub fn rx_dec(self, value: u32) -> (r: Self)
        ensures
            r@ == (RxFirConfig { rx_dec: value, ..self@ }),
    {
        let mut r = self;
        r.0.rx_dec = value;
        r
    }

    /// The fIR decimation factor.
    pub fn get_rx_dec(&self) -> (r: u32)
        ensures
            r == self@.rx_dec,
    {
        self.0.rx_dec
    }

    /// Builder method to set the coefficients. At most 128 coefficients
    /// can be held.
    #[must_use]
    pub fn rx_coef(self, coefficients: &[i16]) -> (r: Self)
        requires
            coefficients@.len() <= 128,
        ensures
            r.wf(),
            r.coefficients() == coefficients@,
            r@.rx_coef@.subrange(coefficients@.len() as int, 128) == self@.rx_coef@.subrange(
                coefficients@.len() as int,
                128,
            ),
            r@.rx == self@.rx,
            r@.rx_gain == self@.rx_gain,
            r@.rx_dec == self@.rx_dec,
            r@.rx_path_clks == self@.rx_path_clks,
            r@.rx_bandwidth == self@.rx_bandwidth,
    {
        let len = coefficients.len();
        let mut r = self;
        let mut i: usize = 0;
        while i < len
            invariant
                len == coefficients@.len(),
                len <= 128,
                i <= len,
                r@.rx_coef@.len() == 128,
                forall|k: int| 0 <= k < i ==> r@.rx_coef@[k] == coefficients@[k],
                forall|k: int| i <= k < 128 ==> r@.rx_coef@[k] == self@.rx_coef@[k],
                r@.rx == self@.rx,
                r@.rx_gain == self@.rx_gain,
                r@.rx_dec == self@.rx_dec,
                r@.rx_path_clks == self@.rx_path_clks,
                r@.rx_bandwidth == self@.rx_bandwidth,
            decreases len - i,
        {
            r.0.rx_coef[i] = coefficients[i];
            i = i + 1;
        }
        r.0.rx_coef_size = len as u8;
        assert(r.coefficients() =~= coefficients@);
        assert(r@.rx_coef@.subrange(len as int, 128) =~= self@.rx_coef@.subrange(len as int, 128));
        r
    }

    /// The coefficients in use.
    pub fn get_rx_coef(&self) -> (r: &[i16])
        requires
            self.wf(),
        ensures
            r@ == self.coefficients(),
    {
        let len = self.0.rx_coef_size as usize;
        self.0.rx_coef.as_slice().split_at(len).0
    }
}

impl Default for Ad9361RxFir {
    fn default() -> (r: Self)
        ensures
            r.wf(),
            r@.rx == 3,
            r@.rx_gain == 0,
            r@.rx_dec == 1,
            r.coefficients() == default_fir_coefficients(),
            r@.rx_path_clks@ == seq![0u32, 0, 0, 0, 0, 0],
            r@.rx_bandwidth == 0,
    {
        let r = Ad9361RxFir(
            RxFirConfig {
                rx: 3,
                rx_gain: 0,
                rx_dec: 1,
                rx_coef: [
                    -4, -6, -37, 35, 186, 86, -284, -315, 107, 219, -4, 271, 558, -307, -1182,
                    -356, 658, 157, 207, 1648, 790, -2525, -2553, 748, 865, -476, 3737, 6560,
                    -3583, -14731, -5278, 14819, 14819, -5278, -14731, -3583, 6560, 3737, -476,
                    865, 748, -2553, -2525, 790, 1648, 207, 157, 658, -356, -1182, -307, 558,
                    271, -4, 219, 107, -315, -284, 86, 186, 35, -37, -6, -4, 0, 0, 0, 0, 0, 0,
                    0, 0, 0, 0, 0, 0, 0, 0, 0, 0, 0, 0, 0, 0, 0, 0, 0, 0, 0, 0, 0, 0, 0, 0, 0,
                    0, 0, 0, 0, 0, 0, 0, 0, 0, 0, 0, 0, 0, 0, 0, 0, 0, 0, 0, 0, 0, 0, 0, 0, 0,
                    0, 0, 0, 0, 0, 0, 0, 0,
                ],
                rx_coef_size: 64,
                rx_path_clks: [0, 0, 0, 0, 0, 0],
                rx_bandwidth: 0,
            },
        );
        assert(r.coefficients() =~= default_fir_coefficients());
        r
    }
}

} // verus!
