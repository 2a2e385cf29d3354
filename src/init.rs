//! Initialisation parameters of the device.

use vstd::prelude::*;

verus! {

/// The device variant that the driver drives.
#[derive(Clone, Copy, Debug, PartialEq, Eq, Structural)]
pub enum DeviceId {
    Ad9361,
    Ad9364,
    Ad9363A,
}

/// Number of a GPIO line that the driver may ask for. A negative number
/// marks the line as unused.
#[derive(Clone, Copy, Debug, PartialEq, Eq, Structural)]
pub struct GpioInitParam {
    pub number: i32,
}

/// GPIO number that marks a line as unused.
pub const GPIO_UNUSED: i32 = -1;

/// GPIO number under which the reset line is handed to the driver when the
/// handle has a reset pin.
pub const GPIO_RESET_LINE: i32 = 1;

/// Parameters used to configure the AD9361 RF PHY.
///
/// The default value matches the example project of the driver's
/// distribution.
#[derive(Clone, Copy, Debug)]
pub struct Ad9361InitParam {
    pub dev_sel: DeviceId,
    // Device Properties
    pub id_no: u8,
    pub reference_clk_rate: u32,
    // Mode
    pub two_rx_two_tx_mode_enable: u8,
    pub one_rx_one_tx_mode_use_rx_num: u8,
    pub one_rx_one_tx_mode_use_tx_num: u8,
    pub frequency_division_duplex_mode_enable: u8,
    pub frequency_division_duplex_independent_mode_enable: u8,
    pub tdd_use_dual_synth_mode_enable: u8,
    pub tdd_skip_vco_cal_enable: u8,
    pub tx_fastlock_delay_ns: u32,
    pub rx_fastlock_delay_ns: u32,
    pub rx_fastlock_pincontrol_enable: u8,
    pub tx_fastlock_pincontrol_enable: u8,
    pub external_rx_lo_enable: u8,
    pub external_tx_lo_enable: u8,
    // DC offset
    pub dc_offset_tracking_update_event_mask: u8,
    pub dc_offset_attenuation_high_range: u8,
    pub dc_offset_attenuation_low_range: u8,
    pub dc_offset_count_high_range: u8,
    pub dc_offset_count_low_range: u8,
    pub split_gain_table_mode_enable: u8,
    // Clock tree
    pub trx_synthesizer_target_fref_overwrite_hz: u32,
    pub qec_tracking_slow_mode_enable: u8,
    pub ensm_enable_pin_pulse_mode_enable: u8,
    pub ensm_enable_txnrx_control_enable: u8,
    pub rx_synthesizer_frequency_hz: u64,
    pub tx_synthesizer_frequency_hz: u64,
    pub tx_lo_powerdown_managed_enable: u8,
    pub rx_path_clock_frequencies: [u32; 6],
    pub tx_path_clock_frequencies: [u32; 6],
    pub rf_rx_bandwidth_hz: u32,
    pub rf_tx_bandwidth_hz: u32,
    pub rx_rf_port_input_select: u32,
    pub tx_rf_port_input_select: u32,
    pub tx_attenuation_md_b: i32,
    pub update_tx_gain_in_alert_enable: u8,
    pub xo_disable_use_ext_refclk_enable: u8,
    pub dcxo_coarse_and_fine_tune: [u32; 2],
    pub clk_output_mode_select: u32,
    // Gain control
    pub gc_rx1_mode: u8,
    pub gc_rx2_mode: u8,
    pub gc_adc_large_overload_thresh: u8,
    pub gc_adc_ovr_sample_size: u8,
    pub gc_adc_small_overload_thresh: u8,
    pub gc_dec_pow_measurement_duration: u16,
    pub gc_dig_gain_enable: u8,
    pub gc_lmt_overload_high_thresh: u16,
    pub gc_lmt_overload_low_thresh: u16,
    pub gc_low_power_thresh: u8,
    pub gc_max_dig_gain: u8,
    pub gc_use_rx_fir_out_for_dec_pwr_meas_enable: u8,
    // Gain MGC Control
    pub mgc_dec_gain_step: u8,
    pub mgc_inc_gain_step: u8,
    pub mgc_rx1_ctrl_inp_enable: u8,
    pub mgc_rx2_ctrl_inp_enable: u8,
    pub mgc_split_table_ctrl_inp_gain_mode: u8,
    // Gain AGC Control
    pub agc_adc_large_overload_exceed_counter: u8,
    pub agc_adc_large_overload_inc_steps: u8,
    pub agc_adc_lmt_small_overload_prevent_gain_inc_enable: u8,
    pub agc_adc_small_overload_exceed_counter: u8,
    pub agc_dig_gain_step_size: u8,
    pub agc_dig_saturation_exceed_counter: u8,
    pub agc_gain_update_interval_us: u32,
    pub agc_immed_gain_change_if_large_adc_overload_enable: u8,
    pub agc_immed_gain_change_if_large_lmt_overload_enable: u8,
    pub agc_inner_thresh_high: u8,
    pub agc_inner_thresh_high_dec_steps: u8,
    pub agc_inner_thresh_low: u8,
    pub agc_inner_thresh_low_inc_steps: u8,
    pub agc_lmt_overload_large_exceed_counter: u8,
    pub agc_lmt_overload_large_inc_steps: u8,
    pub agc_lmt_overload_small_exceed_counter: u8,
    pub agc_outer_thresh_high: u8,
    pub agc_outer_thresh_high_dec_steps: u8,
    pub agc_outer_thresh_low: u8,
    pub agc_outer_thresh_low_inc_steps: u8,
    pub agc_attack_delay_extra_margin_us: u32,
    pub agc_sync_for_gain_counter_enable: u8,
    // Fast AGC
    pub fagc_dec_pow_measuremnt_duration: u32,
    pub fagc_state_wait_time_ns: u32,
    pub fagc_allow_agc_gain_increase: u8,
    pub fagc_lp_thresh_increment_time: u32,
    pub fagc_lp_thresh_increment_steps: u32,
    pub fagc_lock_level_lmt_gain_increase_en: u8,
    pub fagc_lock_level_gain_increase_upper_limit: u32,
    pub fagc_lpf_final_settling_steps: u32,
    pub fagc_lmt_final_settling_steps: u32,
    pub fagc_final_overrange_count: u32,
    pub fagc_gain_increase_after_gain_lock_en: u8,
    pub fagc_gain_index_type_after_exit_rx_mode: u32,
    pub fagc_use_last_lock_level_for_set_gain_en: u8,
    pub fagc_rst_gla_stronger_sig_thresh_exceeded_en: u8,
    pub fagc_optimized_gain_offset: u32,
    pub fagc_rst_gla_stronger_sig_thresh_above_ll: u32,
    pub fagc_rst_gla_engergy_lost_sig_thresh_exceeded_en: u8,
    pub fagc_rst_gla_engergy_lost_goto_optim_gain_en: u8,
    pub fagc_rst_gla_engergy_lost_sig_thresh_below_ll: u32,
    pub fagc_energy_lost_stronger_sig_gain_lock_exit_cnt: u32,
    pub fagc_rst_gla_large_adc_overload_en: u8,
    pub fagc_rst_gla_large_lmt_overload_en: u8,
    pub fagc_rst_gla_en_agc_pulled_high_en: u8,
    pub fagc_rst_gla_if_en_agc_pulled_high_mode: u32,
    pub fagc_power_measurement_duration_in_state5: u32,
    pub fagc_large_overload_inc_steps: u32,
    // RSSI Control
    pub rssi_delay: u32,
    pub rssi_duration: u32,
    pub rssi_restart_mode: u8,
    pub rssi_unit_is_rx_samples_enable: u8,
    pub rssi_wait: u32,
    // Aux ADC Control
    pub aux_adc_decimation: u32,
    pub aux_adc_rate: u32,
    // AuxDAC Control
    pub aux_dac_manual_mode_enable: u8,
    pub aux_dac1_default_value_m_v: u32,
    pub aux_dac1_active_in_rx_enable: u8,
    pub aux_dac1_active_in_tx_enable: u8,
    pub aux_dac1_active_in_alert_enable: u8,
    pub aux_dac1_rx_delay_us: u32,
    pub aux_dac1_tx_delay_us: u32,
    pub aux_dac2_default_value_m_v: u32,
    pub aux_dac2_active_in_rx_enable: u8,
    pub aux_dac2_active_in_tx_enable: u8,
    pub aux_dac2_active_in_alert_enable: u8,
    pub aux_dac2_rx_delay_us: u32,
    pub aux_dac2_tx_delay_us: u32,
    // Temperature Sensor Control
    pub temp_sense_decimation: u32,
    pub temp_sense_measurement_interval_ms: u16,
    pub temp_sense_offset_signed: i8,
    pub temp_sense_periodic_measurement_enable: u8,
    // Control Out Setup
    pub ctrl_outs_enable_mask: u8,
    pub ctrl_outs_index: u8,
    pub elna_settling_delay_ns: u32,
    pub elna_gain_md_b: u32,
    pub elna_bypass_loss_md_b: u32,
    pub elna_rx1_gpo0_control_enable: u8,
    pub elna_rx2_gpo1_control_enable: u8,
    pub elna_gaintable_all_index_enable: u8,
    // Digital Interface Control
    pub digital_interface_tune_skip_mode: u8,
    pub digital_interface_tune_fir_disable: u8,
    pub pp_tx_swap_enable: u8,
    pub pp_rx_swap_enable: u8,
    pub tx_channel_swap_enable: u8,
    pub rx_channel_swap_enable: u8,
    pub rx_frame_pulse_mode_enable: u8,
    pub two_t_two_r_timing_enable: u8,
    pub invert_data_bus_enable: u8,
    pub invert_data_clk_enable: u8,
    pub fdd_alt_word_order_enable: u8,
    pub invert_rx_frame_enable: u8,
    pub fdd_rx_rate_2tx_enable: u8,
    pub swap_ports_enable: u8,
    pub single_data_rate_enable: u8,
    pub lvds_mode_enable: u8,
    pub half_duplex_mode_enable: u8,
    pub single_port_mode_enable: u8,
    pub full_port_enable: u8,
    pub full_duplex_swap_bits_enable: u8,
    pub delay_rx_data: u32,
    pub rx_data_clock_delay: u32,
    pub rx_data_delay: u32,
    pub tx_fb_clock_delay: u32,
    pub tx_data_delay: u32,
    pub lvds_bias_m_v: u32,
    pub lvds_rx_onchip_termination_enable: u8,
    pub rx1rx2_phase_inversion_en: u8,
    pub lvds_invert1_control: u8,
    pub lvds_invert2_control: u8,
    // GPO Control
    pub gpo_manual_mode_enable: u8,
    pub gpo_manual_mode_enable_mask: u32,
    pub gpo0_inactive_state_high_enable: u8,
    pub gpo1_inactive_state_high_enable: u8,
    pub gpo2_inactive_state_high_enable: u8,
    pub gpo3_inactive_state_high_enable: u8,
    pub gpo0_slave_rx_enable: u8,
    pub gpo0_slave_tx_enable: u8,
    pub gpo1_slave_rx_enable: u8,
    pub gpo1_slave_tx_enable: u8,
    pub gpo2_slave_rx_enable: u8,
    pub gpo2_slave_tx_enable: u8,
    pub gpo3_slave_rx_enable: u8,
    pub gpo3_slave_tx_enable: u8,
    pub gpo0_rx_delay_us: u8,
    pub gpo0_tx_delay_us: u8,
    pub gpo1_rx_delay_us: u8,
    pub gpo1_tx_delay_us: u8,
    pub gpo2_rx_delay_us: u8,
    pub gpo2_tx_delay_us: u8,
    pub gpo3_rx_delay_us: u8,
    pub gpo3_tx_delay_us: u8,
    // Tx Monitor Control
    pub low_high_gain_threshold_md_b: u32,
    pub low_gain_d_b: u32,
    pub high_gain_d_b: u32,
    pub tx_mon_track_en: u8,
    pub one_shot_mode_en: u8,
    pub tx_mon_delay: u32,
    pub tx_mon_duration: u32,
    pub tx1_mon_front_end_gain: u32,
    pub tx2_mon_front_end_gain: u32,
    pub tx1_mon_lo_cm: u32,
    pub tx2_mon_lo_cm: u32,
    pub gpio_resetb: GpioInitParam,
    pub gpio_sync: GpioInitParam,
    pub gpio_cal_sw1: GpioInitParam,
    pub gpio_cal_sw2: GpioInitParam,
}

/// The parameters of the driver's example project.
pub open spec fn default_init_param() -> Ad9361InitParam {
    Ad9361InitParam {
    dev_sel: DeviceId::Ad9361,
    // Device Properties
    id_no: 0,
    reference_clk_rate: 40_000_000,
    // Mode
    two_rx_two_tx_mode_enable: 1,
    one_rx_one_tx_mode_use_rx_num: 1,
    one_rx_one_tx_mode_use_tx_num: 1,
    frequency_division_duplex_mode_enable: 1,
    frequency_division_duplex_independent_mode_enable: 0,
    tdd_use_dual_synth_mode_enable: 0,
    tdd_skip_vco_cal_enable: 0,
    tx_fastlock_delay_ns: 0,
    rx_fastlock_delay_ns: 0,
    rx_fastlock_pincontrol_enable: 0,
    tx_fastlock_pincontrol_enable: 0,
    external_rx_lo_enable: 0,
    external_tx_lo_enable: 0,
    // DC offset
    dc_offset_tracking_update_event_mask: 5,
    dc_offset_attenuation_high_range: 6,
    dc_offset_attenuation_low_range: 5,
    dc_offset_count_high_range: 0x28,
    dc_offset_count_low_range: 0x32,
    split_gain_table_mode_enable: 0,
    // Clock tree
    trx_synthesizer_target_fref_overwrite_hz: 80_008_000,
    qec_tracking_slow_mode_enable: 0,
    ensm_enable_pin_pulse_mode_enable: 0,
    ensm_enable_txnrx_control_enable: 0,
    rx_synthesizer_frequency_hz: 2_400_000_000,
    tx_synthesizer_frequency_hz: 2_479_000_000,
    tx_lo_powerdown_managed_enable: 1,
    rx_path_clock_frequencies: [983040000, 245760000, 122880000, 61440000, 30720000, 30720000],
    tx_path_clock_frequencies: [983040000, 122880000, 122880000, 61440000, 30720000, 30720000],
    rf_rx_bandwidth_hz: 18_000_000,
    rf_tx_bandwidth_hz: 18_000_000,
    rx_rf_port_input_select: 0,
    tx_rf_port_input_select: 0,
    tx_attenuation_md_b: 10_000,
    update_tx_gain_in_alert_enable: 0,
    xo_disable_use_ext_refclk_enable: 0,
    dcxo_coarse_and_fine_tune: [8, 5920],
    clk_output_mode_select: 0,
    // Gain control
    gc_rx1_mode: 2,
    gc_rx2_mode: 2,
    gc_adc_large_overload_thresh: 58,
    gc_adc_ovr_sample_size: 4,
    gc_adc_small_overload_thresh: 47,
    gc_dec_pow_measurement_duration: 8192,
    gc_dig_gain_enable: 0,
    gc_lmt_overload_high_thresh: 800,
    gc_lmt_overload_low_thresh: 704,
    gc_low_power_thresh: 24,
    gc_max_dig_gain: 15,
    gc_use_rx_fir_out_for_dec_pwr_meas_enable: 0,
    // Gain MGC Control
    mgc_dec_gain_step: 2,
    mgc_inc_gain_step: 2,
    mgc_rx1_ctrl_inp_enable: 0,
    mgc_rx2_ctrl_inp_enable: 0,
    mgc_split_table_ctrl_inp_gain_mode: 0,
    // Gain AGC Control
    agc_adc_large_overload_exceed_counter: 10,
    agc_adc_large_overload_inc_steps: 2,
    agc_adc_lmt_small_overload_prevent_gain_inc_enable: 0,
    agc_adc_small_overload_exceed_counter: 10,
    agc_dig_gain_step_size: 4,
    agc_dig_saturation_exceed_counter: 3,
    agc_gain_update_interval_us: 1000,
    agc_immed_gain_change_if_large_adc_overload_enable: 0,
    agc_immed_gain_change_if_large_lmt_overload_enable: 0,
    agc_inner_thresh_high: 10,
    agc_inner_thresh_high_dec_steps: 1,
    agc_inner_thresh_low: 12,
    agc_inner_thresh_low_inc_steps: 1,
    agc_lmt_overload_large_exceed_counter: 10,
    agc_lmt_overload_large_inc_steps: 2,
    agc_lmt_overload_small_exceed_counter: 10,
    agc_outer_thresh_high: 5,
    agc_outer_thresh_high_dec_steps: 2,
    agc_outer_thresh_low: 18,
    agc_outer_thresh_low_inc_steps: 2,
    agc_attack_delay_extra_margin_us: 1,
    agc_sync_for_gain_counter_enable: 0,
    // Fast AGC
    fagc_dec_pow_measuremnt_duration: 64,
    fagc_state_wait_time_ns: 260,
    fagc_allow_agc_gain_increase: 0,
    fagc_lp_thresh_increment_time: 5,
    fagc_lp_thresh_increment_steps: 1,
    fagc_lock_level_lmt_gain_increase_en: 1,
    fagc_lock_level_gain_increase_upper_limit: 5,
    fagc_lpf_final_settling_steps: 1,
    fagc_lmt_final_settling_steps: 1,
    fagc_final_overrange_count: 3,
    fagc_gain_increase_after_gain_lock_en: 0,
    fagc_gain_index_type_after_exit_rx_mode: 0,
    fagc_use_last_lock_level_for_set_gain_en: 1,
    fagc_rst_gla_stronger_sig_thresh_exceeded_en: 1,
    fagc_optimized_gain_offset: 5,
    fagc_rst_gla_stronger_sig_thresh_above_ll: 10,
    fagc_rst_gla_engergy_lost_sig_thresh_exceeded_en: 1,
    fagc_rst_gla_engergy_lost_goto_optim_gain_en: 1,
    fagc_rst_gla_engergy_lost_sig_thresh_below_ll: 10,
    fagc_energy_lost_stronger_sig_gain_lock_exit_cnt: 8,
    fagc_rst_gla_large_adc_overload_en: 1,
    fagc_rst_gla_large_lmt_overload_en: 1,
    fagc_rst_gla_en_agc_pulled_high_en: 0,
    fagc_rst_gla_if_en_agc_pulled_high_mode: 0,
    fagc_power_measurement_duration_in_state5: 64,
    fagc_large_overload_inc_steps: 2,
    // RSSI Control
    rssi_delay: 1,
    rssi_duration: 1000,
    rssi_restart_mode: 3,
    rssi_unit_is_rx_samples_enable: 0,
    rssi_wait: 1,
    // Aux ADC Control
    aux_adc_decimation: 256,
    aux_adc_rate: 40000000,
    // AuxDAC Control
    aux_dac_manual_mode_enable: 1,
    aux_dac1_default_value_m_v: 0,
    aux_dac1_active_in_rx_enable: 0,
    aux_dac1_active_in_tx_enable: 0,
    aux_dac1_active_in_alert_enable: 0,
    aux_dac1_rx_delay_us: 0,
    aux_dac1_tx_delay_us: 0,
    aux_dac2_default_value_m_v: 0,
    aux_dac2_active_in_rx_enable: 0,
    aux_dac2_active_in_tx_enable: 0,
    aux_dac2_active_in_alert_enable: 0,
    aux_dac2_rx_delay_us: 0,
    aux_dac2_tx_delay_us: 0,
    // Temperature Sensor Control
    temp_sense_decimation: 256,
    temp_sense_measurement_interval_ms: 1000,
    temp_sense_offset_signed: -49i8,
    temp_sense_periodic_measurement_enable: 1,
    // Control Out Setup
    ctrl_outs_enable_mask: 0xFF,
    ctrl_outs_index: 0,
    elna_settling_delay_ns: 0,
    elna_gain_md_b: 0,
    elna_bypass_loss_md_b: 0,
    elna_rx1_gpo0_control_enable: 0,
    elna_rx2_gpo1_control_enable: 0,
    elna_gaintable_all_index_enable: 0,
    // Digital Interface Control
    digital_interface_tune_skip_mode: 0,
    digital_interface_tune_fir_disable: 0,
    pp_tx_swap_enable: 1,
    pp_rx_swap_enable: 1,
    tx_channel_swap_enable: 0,
    rx_channel_swap_enable: 0,
    rx_frame_pulse_mode_enable: 1,
    two_t_two_r_timing_enable: 0,
    invert_data_bus_enable: 0,
    invert_data_clk_enable: 0,
    fdd_alt_word_order_enable: 0,
    invert_rx_frame_enable: 0,
    fdd_rx_rate_2tx_enable: 0,
    swap_ports_enable: 0,
    single_data_rate_enable: 0,
    lvds_mode_enable: 1,
    half_duplex_mode_enable: 0,
    single_port_mode_enable: 0,
    full_port_enable: 0,
    full_duplex_swap_bits_enable: 0,
    delay_rx_data: 0,
    rx_data_clock_delay: 0,
    rx_data_delay: 4,
    tx_fb_clock_delay: 7,
    tx_data_delay: 0,
    lvds_bias_m_v: 150,
    lvds_rx_onchip_termination_enable: 1,
    rx1rx2_phase_inversion_en: 0,
    lvds_invert1_control: 0xFF,
    lvds_invert2_control: 0x0F,
    // GPO Control
    gpo_manual_mode_enable: 0,
    gpo_manual_mode_enable_mask: 0,
    gpo0_inactive_state_high_enable: 0,
    gpo1_inactive_state_high_enable: 0,
    gpo2_inactive_state_high_enable: 0,
    gpo3_inactive_state_high_enable: 0,
    gpo0_slave_rx_enable: 0,
    gpo0_slave_tx_enable: 0,
    gpo1_slave_rx_enable: 0,
    gpo1_slave_tx_enable: 0,
    gpo2_slave_rx_enable: 0,
    gpo2_slave_tx_enable: 0,
    gpo3_slave_rx_enable: 0,
    gpo3_slave_tx_enable: 0,
    gpo0_rx_delay_us: 0,
    gpo0_tx_delay_us: 0,
    gpo1_rx_delay_us: 0,
    gpo1_tx_delay_us: 0,
    gpo2_rx_delay_us: 0,
    gpo2_tx_delay_us: 0,
    gpo3_rx_delay_us: 0,
    gpo3_tx_delay_us: 0,
    // Tx Monitor Control
    low_high_gain_threshold_md_b: 37000,
    low_gain_d_b: 0,
    high_gain_d_b: 24,
    tx_mon_track_en: 0,
    one_shot_mode_en: 0,
    tx_mon_delay: 511,
    tx_mon_duration: 8192,
    tx1_mon_front_end_gain: 2,
    tx2_mon_front_end_gain: 2,
    tx1_mon_lo_cm: 48,
    tx2_mon_lo_cm: 48,
    gpio_resetb: GpioInitParam { number: GPIO_UNUSED },
    gpio_sync: GpioInitParam { number: GPIO_UNUSED },
    gpio_cal_sw1: GpioInitParam { number: GPIO_UNUSED },
    gpio_cal_sw2: GpioInitParam { number: GPIO_UNUSED },
    }
}

impl Default for Ad9361InitParam {
    fn default() -> (r: Self)
        ensures
            r == default_init_param(),
    {
        Ad9361InitParam {
        dev_sel: DeviceId::Ad9361,
        // Device Properties
        id_no: 0,
        reference_clk_rate: 40_000_000,
        // Mode
        two_rx_two_tx_mode_enable: 1,
        one_rx_one_tx_mode_use_rx_num: 1,
        one_rx_one_tx_mode_use_tx_num: 1,
        frequency_division_duplex_mode_enable: 1,
        frequency_division_duplex_independent_mode_enable: 0,
        tdd_use_dual_synth_mode_enable: 0,
        tdd_skip_vco_cal_enable: 0,
        tx_fastlock_delay_ns: 0,
        rx_fastlock_delay_ns: 0,
        rx_fastlock_pincontrol_enable: 0,
        tx_fastlock_pincontrol_enable: 0,
        external_rx_lo_enable: 0,
        external_tx_lo_enable: 0,
        // DC offset
        dc_offset_tracking_update_event_mask: 5,
        dc_offset_attenuation_high_range: 6,
        dc_offset_attenuation_low_range: 5,
        dc_offset_count_high_range: 0x28,
        dc_offset_count_low_range: 0x32,
        split_gain_table_mode_enable: 0,
        // Clock tree
        trx_synthesizer_target_fref_overwrite_hz: 80_008_000,
        qec_tracking_slow_mode_enable: 0,
        ensm_enable_pin_pulse_mode_enable: 0,
        ensm_enable_txnrx_control_enable: 0,
        rx_synthesizer_frequency_hz: 2_400_000_000,
        tx_synthesizer_frequency_hz: 2_479_000_000,
        tx_lo_powerdown_managed_enable: 1,
        rx_path_clock_frequencies: [983040000, 245760000, 122880000, 61440000, 30720000, 30720000],
        tx_path_clock_frequencies: [983040000, 122880000, 122880000, 61440000, 30720000, 30720000],
        rf_rx_bandwidth_hz: 18_000_000,
        rf_tx_bandwidth_hz: 18_000_000,
        rx_rf_port_input_select: 0,
        tx_rf_port_input_select: 0,
        tx_attenuation_md_b: 10_000,
        update_tx_gain_in_alert_enable: 0,
        xo_disable_use_ext_refclk_enable: 0,
        dcxo_coarse_and_fine_tune: [8, 5920],
        clk_output_mode_select: 0,
        // Gain control
        gc_rx1_mode: 2,
        gc_rx2_mode: 2,
        gc_adc_large_overload_thresh: 58,
        gc_adc_ovr_sample_size: 4,
        gc_adc_small_overload_thresh: 47,
        gc_dec_pow_measurement_duration: 8192,
        gc_dig_gain_enable: 0,
        gc_lmt_overload_high_thresh: 800,
        gc_lmt_overload_low_thresh: 704,
        gc_low_power_thresh: 24,
        gc_max_dig_gain: 15,
        gc_use_rx_fir_out_for_dec_pwr_meas_enable: 0,
        // Gain MGC Control
        mgc_dec_gain_step: 2,
        mgc_inc_gain_step: 2,
        mgc_rx1_ctrl_inp_enable: 0,
        mgc_rx2_ctrl_inp_enable: 0,
        mgc_split_table_ctrl_inp_gain_mode: 0,
        // Gain AGC Control
        agc_adc_large_overload_exceed_counter: 10,
        agc_adc_large_overload_inc_steps: 2,
        agc_adc_lmt_small_overload_prevent_gain_inc_enable: 0,
        agc_adc_small_overload_exceed_counter: 10,
        agc_dig_gain_step_size: 4,
        agc_dig_saturation_exceed_counter: 3,
        agc_gain_update_interval_us: 1000,
        agc_immed_gain_change_if_large_adc_overload_enable: 0,
        agc_immed_gain_change_if_large_lmt_overload_enable: 0,
        agc_inner_thresh_high: 10,
        agc_inner_thresh_high_dec_steps: 1,
        agc_inner_thresh_low: 12,
        agc_inner_thresh_low_inc_steps: 1,
        agc_lmt_overload_large_exceed_counter: 10,
        agc_lmt_overload_large_inc_steps: 2,
        agc_lmt_overload_small_exceed_counter: 10,
        agc_outer_thresh_high: 5,
        agc_outer_thresh_high_dec_steps: 2,
        agc_outer_thresh_low: 18,
        agc_outer_thresh_low_inc_steps: 2,
        agc_attack_delay_extra_margin_us: 1,
        agc_sync_for_gain_counter_enable: 0,
        // Fast AGC
        fagc_dec_pow_measuremnt_duration: 64,
        fagc_state_wait_time_ns: 260,
        fagc_allow_agc_gain_increase: 0,
        fagc_lp_thresh_increment_time: 5,
        fagc_lp_thresh_increment_steps: 1,
        fagc_lock_level_lmt_gain_increase_en: 1,
        fagc_lock_level_gain_increase_upper_limit: 5,
        fagc_lpf_final_settling_steps: 1,
        fagc_lmt_final_settling_steps: 1,
        fagc_final_overrange_count: 3,
        fagc_gain_increase_after_gain_lock_en: 0,
        fagc_gain_index_type_after_exit_rx_mode: 0,
        fagc_use_last_lock_level_for_set_gain_en: 1,
        fagc_rst_gla_stronger_sig_thresh_exceeded_en: 1,
        fagc_optimized_gain_offset: 5,
        fagc_rst_gla_stronger_sig_thresh_above_ll: 10,
        fagc_rst_gla_engergy_lost_sig_thresh_exceeded_en: 1,
        fagc_rst_gla_engergy_lost_goto_optim_gain_en: 1,
        fagc_rst_gla_engergy_lost_sig_thresh_below_ll: 10,
        fagc_energy_lost_stronger_sig_gain_lock_exit_cnt: 8,
        fagc_rst_gla_large_adc_overload_en: 1,
        fagc_rst_gla_large_lmt_overload_en: 1,
        fagc_rst_gla_en_agc_pulled_high_en: 0,
        fagc_rst_gla_if_en_agc_pulled_high_mode: 0,
        fagc_power_measurement_duration_in_state5: 64,
        fagc_large_overload_inc_steps: 2,
        // RSSI Control
        rssi_delay: 1,
        rssi_duration: 1000,
        rssi_restart_mode: 3,
        rssi_unit_is_rx_samples_enable: 0,
        rssi_wait: 1,
        // Aux ADC Control
        aux_adc_decimation: 256,
        aux_adc_rate: 40000000,
        // AuxDAC Control
        aux_dac_manual_mode_enable: 1,
        aux_dac1_default_value_m_v: 0,
        aux_dac1_active_in_rx_enable: 0,
        aux_dac1_active_in_tx_enable: 0,
        aux_dac1_active_in_alert_enable: 0,
        aux_dac1_rx_delay_us: 0,
        aux_dac1_tx_delay_us: 0,
        aux_dac2_default_value_m_v: 0,
        aux_dac2_active_in_rx_enable: 0,
        aux_dac2_active_in_tx_enable: 0,
        aux_dac2_active_in_alert_enable: 0,
        aux_dac2_rx_delay_us: 0,
        aux_dac2_tx_delay_us: 0,
        // Temperature Sensor Control
        temp_sense_decimation: 256,
        temp_sense_measurement_interval_ms: 1000,
        temp_sense_offset_signed: -49i8,
        temp_sense_periodic_measurement_enable: 1,
        // Control Out Setup
        ctrl_outs_enable_mask: 0xFF,
        ctrl_outs_index: 0,
        elna_settling_delay_ns: 0,
        elna_gain_md_b: 0,
        elna_bypass_loss_md_b: 0,
        elna_rx1_gpo0_control_enable: 0,
        elna_rx2_gpo1_control_enable: 0,
        elna_gaintable_all_index_enable: 0,
        // Digital Interface Control
        digital_interface_tune_skip_mode: 0,
        digital_interface_tune_fir_disable: 0,
        pp_tx_swap_enable: 1,
        pp_rx_swap_enable: 1,
        tx_channel_swap_enable: 0,
        rx_channel_swap_enable: 0,
        rx_frame_pulse_mode_enable: 1,
        two_t_two_r_timing_enable: 0,
        invert_data_bus_enable: 0,
        invert_data_clk_enable: 0,
        fdd_alt_word_order_enable: 0,
        invert_rx_frame_enable: 0,
        fdd_rx_rate_2tx_enable: 0,
        swap_ports_enable: 0,
        single_data_rate_enable: 0,
        lvds_mode_enable: 1,
        half_duplex_mode_enable: 0,
        single_port_mode_enable: 0,
        full_port_enable: 0,
        full_duplex_swap_bits_enable: 0,
        delay_rx_data: 0,
        rx_data_clock_delay: 0,
        rx_data_delay: 4,
        tx_fb_clock_delay: 7,
        tx_data_delay: 0,
        lvds_bias_m_v: 150,
        lvds_rx_onchip_termination_enable: 1,
        rx1rx2_phase_inversion_en: 0,
        lvds_invert1_control: 0xFF,
        lvds_invert2_control: 0x0F,
        // GPO Control
        gpo_manual_mode_enable: 0,
        gpo_manual_mode_enable_mask: 0,
        gpo0_inactive_state_high_enable: 0,
        gpo1_inactive_state_high_enable: 0,
        gpo2_inactive_state_high_enable: 0,
        gpo3_inactive_state_high_enable: 0,
        gpo0_slave_rx_enable: 0,
        gpo0_slave_tx_enable: 0,
        gpo1_slave_rx_enable: 0,
        gpo1_slave_tx_enable: 0,
        gpo2_slave_rx_enable: 0,
        gpo2_slave_tx_enable: 0,
        gpo3_slave_rx_enable: 0,
        gpo3_slave_tx_enable: 0,
        gpo0_rx_delay_us: 0,
        gpo0_tx_delay_us: 0,
        gpo1_rx_delay_us: 0,
        gpo1_tx_delay_us: 0,
        gpo2_rx_delay_us: 0,
        gpo2_tx_delay_us: 0,
        gpo3_rx_delay_us: 0,
        gpo3_tx_delay_us: 0,
        // Tx Monitor Control
        low_high_gain_threshold_md_b: 37000,
        low_gain_d_b: 0,
        high_gain_d_b: 24,
        tx_mon_track_en: 0,
        one_shot_mode_en: 0,
        tx_mon_delay: 511,
        tx_mon_duration: 8192,
        tx1_mon_front_end_gain: 2,
        tx2_mon_front_end_gain: 2,
        tx1_mon_lo_cm: 48,
        tx2_mon_lo_cm: 48,
        gpio_resetb: GpioInitParam { number: GPIO_UNUSED },
        gpio_sync: GpioInitParam { number: GPIO_UNUSED },
        gpio_cal_sw1: GpioInitParam { number: GPIO_UNUSED },
        gpio_cal_sw2: GpioInitParam { number: GPIO_UNUSED },
        }
    }
}

/// Device selection.
impl Ad9361InitParam {
    /// Device variant.
    pub fn dev_sel(&self) -> (r: DeviceId)
        ensures
            r == self.dev_sel,
    {
        self.dev_sel
    }

    /// Sets device variant, and returns the parameters for chaining.
    pub fn set_dev_sel(&mut self, val: DeviceId) -> (r: &mut Self)
        ensures
            *r == (Ad9361InitParam { dev_sel: val, ..*old(self) }),
            *final(self) == *final(r),
    {
        self.dev_sel = val;
        self
    }
}

/// Device Properties.
impl Ad9361InitParam {
    /// The `id_no` parameter.
    pub fn id_no(&self) -> (r: u8)
        ensures
            r == self.id_no,
    {
        self.id_no
    }

    /// Sets the `id_no` parameter, and returns the parameters for chaining.
    pub fn set_id_no(&mut self, val: u8) -> (r: &mut Self)
        ensures
            *r == (Ad9361InitParam { id_no: val, ..*old(self) }),
            *final(self) == *final(r),
    {
        self.id_no = val;
        self
    }

    /// The `reference_clk_rate` parameter.
    pub fn reference_clk_rate(&self) -> (r: u32)
        ensures
            r == self.reference_clk_rate,
    {
        self.reference_clk_rate
    }

    /// Sets the `reference_clk_rate` parameter, and returns the parameters for chaining.
    pub fn set_reference_clk_rate(&mut self, val: u32) -> (r: &mut Self)
        ensures
            *r == (Ad9361InitParam { reference_clk_rate: val, ..*old(self) }),
            *final(self) == *final(r),
    {
        self.reference_clk_rate = val;
        self
    }
}

/// Mode.
impl Ad9361InitParam {
    /// The `two_rx_two_tx_mode_enable` parameter.
    pub fn two_rx_two_tx_mode_enable(&self) -> (r: u8)
        ensures
            r == self.two_rx_two_tx_mode_enable,
    {
        self.two_rx_two_tx_mode_enable
    }

    /// Sets the `two_rx_two_tx_mode_enable` parameter, and returns the parameters for chaining.
    pub fn set_two_rx_two_tx_mode_enable(&mut self, val: u8) -> (r: &mut Self)
        ensures
            *r == (Ad9361InitParam { two_rx_two_tx_mode_enable: val, ..*old(self) }),
            *final(self) == *final(r),
    {
        self.two_rx_two_tx_mode_enable = val;
        self
    }

    /// The `one_rx_one_tx_mode_use_rx_num` parameter.
    pub fn one_rx_one_tx_mode_use_rx_num(&self) -> (r: u8)
        ensures
            r == self.one_rx_one_tx_mode_use_rx_num,
    {
        self.one_rx_one_tx_mode_use_rx_num
    }

    /// Sets the `one_rx_one_tx_mode_use_rx_num` parameter, and returns the parameters for chaining.
    pub fn set_one_rx_one_tx_mode_use_rx_num(&mut self, val: u8) -> (r: &mut Self)
        ensures
            *r == (Ad9361InitParam { one_rx_one_tx_mode_use_rx_num: val, ..*old(self) }),
            *final(self) == *final(r),
    {
        self.one_rx_one_tx_mode_use_rx_num = val;
        self
    }

    /// The `one_rx_one_tx_mode_use_tx_num` parameter.
    pub fn one_rx_one_tx_mode_use_tx_num(&self) -> (r: u8)
        ensures
            r == self.one_rx_one_tx_mode_use_tx_num,
    {
        self.one_rx_one_tx_mode_use_tx_num
    }

    /// Sets the `one_rx_one_tx_mode_use_tx_num` parameter, and returns the parameters for chaining.
    pub fn set_one_rx_one_tx_mode_use_tx_num(&mut self, val: u8) -> (r: &mut Self)
        ensures
            *r == (Ad9361InitParam { one_rx_one_tx_mode_use_tx_num: val, ..*old(self) }),
            *final(self) == *final(r),
    {
        self.one_rx_one_tx_mode_use_tx_num = val;
        self
    }

    /// The `frequency_division_duplex_mode_enable` parameter.
    pub fn frequency_division_duplex_mode_enable(&self) -> (r: u8)
        ensures
            r == self.frequency_division_duplex_mode_enable,
    {
        self.frequency_division_duplex_mode_enable
    }

    /// Sets the `frequency_division_duplex_mode_enable` parameter, and returns the parameters for chaining.
    pub fn set_frequency_division_duplex_mode_enable(&mut self, val: u8) -> (r: &mut Self)
        ensures
            *r == (Ad9361InitParam { frequency_division_duplex_mode_enable: val, ..*old(self) }),
            *final(self) == *final(r),
    {
        self.frequency_division_duplex_mode_enable = val;
        self
    }

    /// The `frequency_division_duplex_independent_mode_enable` parameter.
    pub fn frequency_division_duplex_independent_mode_enable(&self) -> (r: u8)
        ensures
            r == self.frequency_division_duplex_independent_mode_enable,
    {
        self.frequency_division_duplex_independent_mode_enable
    }

    /// Sets the `frequency_division_duplex_independent_mode_enable` parameter, and returns the parameters for chaining.
    pub fn set_frequency_division_duplex_independent_mode_enable(&mut self, val: u8) -> (r: &mut Self)
        ensures
            *r == (Ad9361InitParam { frequency_division_duplex_independent_mode_enable: val, ..*old(self) }),
            *final(self) == *final(r),
    {
        self.frequency_division_duplex_independent_mode_enable = val;
        self
    }

    /// The `tdd_use_dual_synth_mode_enable` parameter.
    pub fn tdd_use_dual_synth_mode_enable(&self) -> (r: u8)
        ensures
            r == self.tdd_use_dual_synth_mode_enable,
    {
        self.tdd_use_dual_synth_mode_enable
    }

    /// Sets the `tdd_use_dual_synth_mode_enable` parameter, and returns the parameters for chaining.
    pub fn set_tdd_use_dual_synth_mode_enable(&mut self, val: u8) -> (r: &mut Self)
        ensures
            *r == (Ad9361InitParam { tdd_use_dual_synth_mode_enable: val, ..*old(self) }),
            *final(self) == *final(r),
    {
        self.tdd_use_dual_synth_mode_enable = val;
        self
    }

    /// The `tdd_skip_vco_cal_enable` parameter.
    pub fn tdd_skip_vco_cal_enable(&self) -> (r: u8)
        ensures
            r == self.tdd_skip_vco_cal_enable,
    {
        self.tdd_skip_vco_cal_enable
    }

    /// Sets the `tdd_skip_vco_cal_enable` parameter, and returns the parameters for chaining.
    pub fn set_tdd_skip_vco_cal_enable(&mut self, val: u8) -> (r: &mut Self)
        ensures
            *r == (Ad9361InitParam { tdd_skip_vco_cal_enable: val, ..*old(self) }),
            *final(self) == *final(r),
    {
        self.tdd_skip_vco_cal_enable = val;
        self
    }

    /// The `tx_fastlock_delay_ns` parameter.
    pub fn tx_fastlock_delay_ns(&self) -> (r: u32)
        ensures
            r == self.tx_fastlock_delay_ns,
    {
        self.tx_fastlock_delay_ns
    }

    /// Sets the `tx_fastlock_delay_ns` parameter, and returns the parameters for chaining.
    pub fn set_tx_fastlock_delay_ns(&mut self, val: u32) -> (r: &mut Self)
        ensures
            *r == (Ad9361InitParam { tx_fastlock_delay_ns: val, ..*old(self) }),
            *final(self) == *final(r),
    {
        self.tx_fastlock_delay_ns = val;
        self
    }

    /// The `rx_fastlock_delay_ns` parameter.
    pub fn rx_fastlock_delay_ns(&self) -> (r: u32)
        ensures
            r == self.rx_fastlock_delay_ns,
    {
        self.rx_fastlock_delay_ns
    }

    /// Sets the `rx_fastlock_delay_ns` parameter, and returns the parameters for chaining.
    pub fn set_rx_fastlock_delay_ns(&mut self, val: u32) -> (r: &mut Self)
        ensures
            *r == (Ad9361InitParam { rx_fastlock_delay_ns: val, ..*old(self) }),
            *final(self) == *final(r),
    {
        self.rx_fastlock_delay_ns = val;
        self
    }

    /// The `rx_fastlock_pincontrol_enable` parameter.
    pub fn rx_fastlock_pincontrol_enable(&self) -> (r: u8)
        ensures
            r == self.rx_fastlock_pincontrol_enable,
    {
        self.rx_fastlock_pincontrol_enable
    }

    /// Sets the `rx_fastlock_pincontrol_enable` parameter, and returns the parameters for chaining.
    pub fn set_rx_fastlock_pincontrol_enable(&mut self, val: u8) -> (r: &mut Self)
        ensures
            *r == (Ad9361InitParam { rx_fastlock_pincontrol_enable: val, ..*old(self) }),
            *final(self) == *final(r),
    {
        self.rx_fastlock_pincontrol_enable = val;
        self
    }

    /// The `tx_fastlock_pincontrol_enable` parameter.
    pub fn tx_fastlock_pincontrol_enable(&self) -> (r: u8)
        ensures
            r == self.tx_fastlock_pincontrol_enable,
    {
        self.tx_fastlock_pincontrol_enable
    }

    /// Sets the `tx_fastlock_pincontrol_enable` parameter, and returns the parameters for chaining.
    pub fn set_tx_fastlock_pincontrol_enable(&mut self, val: u8) -> (r: &mut Self)
        ensures
            *r == (Ad9361InitParam { tx_fastlock_pincontrol_enable: val, ..*old(self) }),
            *final(self) == *final(r),
    {
        self.tx_fastlock_pincontrol_enable = val;
        self
    }

    /// The `external_rx_lo_enable` parameter.
    pub fn external_rx_lo_enable(&self) -> (r: u8)
        ensures
            r == self.external_rx_lo_enable,
    {
        self.external_rx_lo_enable
    }

    /// Sets the `external_rx_lo_enable` parameter, and returns the parameters for chaining.
    pub fn set_external_rx_lo_enable(&mut self, val: u8) -> (r: &mut Self)
        ensures
            *r == (Ad9361InitParam { external_rx_lo_enable: val, ..*old(self) }),
            *final(self) == *final(r),
    {
        self.external_rx_lo_enable = val;
        self
    }

    /// The `external_tx_lo_enable` parameter.
    pub fn external_tx_lo_enable(&self) -> (r: u8)
        ensures
            r == self.external_tx_lo_enable,
    {
        self.external_tx_lo_enable
    }

    /// Sets the `external_tx_lo_enable` parameter, and returns the parameters for chaining.
    pub fn set_external_tx_lo_enable(&mut self, val: u8) -> (r: &mut Self)
        ensures
            *r == (Ad9361InitParam { external_tx_lo_enable: val, ..*old(self) }),
            *final(self) == *final(r),
    {
        self.external_tx_lo_enable = val;
        self
    }
}

/// DC offset.
impl Ad9361InitParam {
    /// The `dc_offset_tracking_update_event_mask` parameter.
    pub fn dc_offset_tracking_update_event_mask(&self) -> (r: u8)
        ensures
            r == self.dc_offset_tracking_update_event_mask,
    {
        self.dc_offset_tracking_update_event_mask
    }

    /// Sets the `dc_offset_tracking_update_event_mask` parameter, and returns the parameters for chaining.
    pub fn set_dc_offset_tracking_update_event_mask(&mut self, val: u8) -> (r: &mut Self)
        ensures
            *r == (Ad9361InitParam { dc_offset_tracking_update_event_mask: val, ..*old(self) }),
            *final(self) == *final(r),
    {
        self.dc_offset_tracking_update_event_mask = val;
        self
    }

    /// The `dc_offset_attenuation_high_range` parameter.
    pub fn dc_offset_attenuation_high_range(&self) -> (r: u8)
        ensures
            r == self.dc_offset_attenuation_high_range,
    {
        self.dc_offset_attenuation_high_range
    }

    /// Sets the `dc_offset_attenuation_high_range` parameter, and returns the parameters for chaining.
    pub fn set_dc_offset_attenuation_high_range(&mut self, val: u8) -> (r: &mut Self)
        ensures
            *r == (Ad9361InitParam { dc_offset_attenuation_high_range: val, ..*old(self) }),
            *final(self) == *final(r),
    {
        self.dc_offset_attenuation_high_range = val;
        self
    }

    /// The `dc_offset_attenuation_low_range` parameter.
    pub fn dc_offset_attenuation_low_range(&self) -> (r: u8)
        ensures
            r == self.dc_offset_attenuation_low_range,
    {
        self.dc_offset_attenuation_low_range
    }

    /// Sets the `dc_offset_attenuation_low_range` parameter, and returns the parameters for chaining.
    pub fn set_dc_offset_attenuation_low_range(&mut self, val: u8) -> (r: &mut Self)
        ensures
            *r == (Ad9361InitParam { dc_offset_attenuation_low_range: val, ..*old(self) }),
            *final(self) == *final(r),
    {
        self.dc_offset_attenuation_low_range = val;
        self
    }

    /// The `dc_offset_count_high_range` parameter.
    pub fn dc_offset_count_high_range(&self) -> (r: u8)
        ensures
            r == self.dc_offset_count_high_range,
    {
        self.dc_offset_count_high_range
    }

    /// Sets the `dc_offset_count_high_range` parameter, and returns the parameters for chaining.
    pub fn set_dc_offset_count_high_range(&mut self, val: u8) -> (r: &mut Self)
        ensures
            *r == (Ad9361InitParam { dc_offset_count_high_range: val, ..*old(self) }),
            *final(self) == *final(r),
    {
        self.dc_offset_count_high_range = val;
        self
    }

    /// The `dc_offset_count_low_range` parameter.
    pub fn dc_offset_count_low_range(&self) -> (r: u8)
        ensures
            r == self.dc_offset_count_low_range,
    {
        self.dc_offset_count_low_range
    }

    /// Sets the `dc_offset_count_low_range` parameter, and returns the parameters for chaining.
    pub fn set_dc_offset_count_low_range(&mut self, val: u8) -> (r: &mut Self)
        ensures
            *r == (Ad9361InitParam { dc_offset_count_low_range: val, ..*old(self) }),
            *final(self) == *final(r),
    {
        self.dc_offset_count_low_range = val;
        self
    }

    /// The `split_gain_table_mode_enable` parameter.
    pub fn split_gain_table_mode_enable(&self) -> (r: u8)
        ensures
            r == self.split_gain_table_mode_enable,
    {
        self.split_gain_table_mode_enable
    }

    /// Sets the `split_gain_table_mode_enable` parameter, and returns the parameters for chaining.
    pub fn set_split_gain_table_mode_enable(&mut self, val: u8) -> (r: &mut Self)
        ensures
            *r == (Ad9361InitParam { split_gain_table_mode_enable: val, ..*old(self) }),
            *final(self) == *final(r),
    {
        self.split_gain_table_mode_enable = val;
        self
    }
}

/// Clock tree.
impl Ad9361InitParam {
    /// The `trx_synthesizer_target_fref_overwrite_hz` parameter.
    pub fn trx_synthesizer_target_fref_overwrite_hz(&self) -> (r: u32)
        ensures
            r == self.trx_synthesizer_target_fref_overwrite_hz,
    {
        self.trx_synthesizer_target_fref_overwrite_hz
    }

    /// Sets the `trx_synthesizer_target_fref_overwrite_hz` parameter, and returns the parameters for chaining.
    pub fn set_trx_synthesizer_target_fref_overwrite_hz(&mut self, val: u32) -> (r: &mut Self)
        ensures
            *r == (Ad9361InitParam { trx_synthesizer_target_fref_overwrite_hz: val, ..*old(self) }),
            *final(self) == *final(r),
    {
        self.trx_synthesizer_target_fref_overwrite_hz = val;
        self
    }

    /// The `qec_tracking_slow_mode_enable` parameter.
    pub fn qec_tracking_slow_mode_enable(&self) -> (r: u8)
        ensures
            r == self.qec_tracking_slow_mode_enable,
    {
        self.qec_tracking_slow_mode_enable
    }

    /// Sets the `qec_tracking_slow_mode_enable` parameter, and returns the parameters for chaining.
    pub fn set_qec_tracking_slow_mode_enable(&mut self, val: u8) -> (r: &mut Self)
        ensures
            *r == (Ad9361InitParam { qec_tracking_slow_mode_enable: val, ..*old(self) }),
            *final(self) == *final(r),
    {
        self.qec_tracking_slow_mode_enable = val;
        self
    }

    /// The `ensm_enable_pin_pulse_mode_enable` parameter.
    pub fn ensm_enable_pin_pulse_mode_enable(&self) -> (r: u8)
        ensures
            r == self.ensm_enable_pin_pulse_mode_enable,
    {
        self.ensm_enable_pin_pulse_mode_enable
    }

    /// Sets the `ensm_enable_pin_pulse_mode_enable` parameter, and returns the parameters for chaining.
    pub fn set_ensm_enable_pin_pulse_mode_enable(&mut self, val: u8) -> (r: &mut Self)
        ensures
            *r == (Ad9361InitParam { ensm_enable_pin_pulse_mode_enable: val, ..*old(self) }),
            *final(self) == *final(r),
    {
        self.ensm_enable_pin_pulse_mode_enable = val;
        self
    }

    /// The `ensm_enable_txnrx_control_enable` parameter.
    pub fn ensm_enable_txnrx_control_enable(&self) -> (r: u8)
        ensures
            r == self.ensm_enable_txnrx_control_enable,
    {
        self.ensm_enable_txnrx_control_enable
    }

    /// Sets the `ensm_enable_txnrx_control_enable` parameter, and returns the parameters for chaining.
    pub fn set_ensm_enable_txnrx_control_enable(&mut self, val: u8) -> (r: &mut Self)
        ensures
            *r == (Ad9361InitParam { ensm_enable_txnrx_control_enable: val, ..*old(self) }),
            *final(self) == *final(r),
    {
        self.ensm_enable_txnrx_control_enable = val;
        self
    }

    /// The `rx_synthesizer_frequency_hz` parameter.
    pub fn rx_synthesizer_frequency_hz(&self) -> (r: u64)
        ensures
            r == self.rx_synthesizer_frequency_hz,
    {
        self.rx_synthesizer_frequency_hz
    }

    /// Sets the `rx_synthesizer_frequency_hz` parameter, and returns the parameters for chaining.
    pub fn set_rx_synthesizer_frequency_hz(&mut self, val: u64) -> (r: &mut Self)
        ensures
            *r == (Ad9361InitParam { rx_synthesizer_frequency_hz: val, ..*old(self) }),
            *final(self) == *final(r),
    {
        self.rx_synthesizer_frequency_hz = val;
        self
    }

    /// The `tx_synthesizer_frequency_hz` parameter.
    pub fn tx_synthesizer_frequency_hz(&self) -> (r: u64)
        ensures
            r == self.tx_synthesizer_frequency_hz,
    {
        self.tx_synthesizer_frequency_hz
    }

    /// Sets the `tx_synthesizer_frequency_hz` parameter, and returns the parameters for chaining.
    pub fn set_tx_synthesizer_frequency_hz(&mut self, val: u64) -> (r: &mut Self)
        ensures
            *r == (Ad9361InitParam { tx_synthesizer_frequency_hz: val, ..*old(self) }),
            *final(self) == *final(r),
    {
        self.tx_synthesizer_frequency_hz = val;
        self
    }

    /// The `tx_lo_powerdown_managed_enable` parameter.
    pub fn tx_lo_powerdown_managed_enable(&self) -> (r: u8)
        ensures
            r == self.tx_lo_powerdown_managed_enable,
    {
        self.tx_lo_powerdown_managed_enable
    }

    /// Sets the `tx_lo_powerdown_managed_enable` parameter, and returns the parameters for chaining.
    pub fn set_tx_lo_powerdown_managed_enable(&mut self, val: u8) -> (r: &mut Self)
        ensures
            *r == (Ad9361InitParam { tx_lo_powerdown_managed_enable: val, ..*old(self) }),
            *final(self) == *final(r),
    {
        self.tx_lo_powerdown_managed_enable = val;
        self
    }

    /// The `rx_path_clock_frequencies` parameter.
    pub fn rx_path_clock_frequencies(&self) -> (r: [u32; 6])
        ensures
            r == self.rx_path_clock_frequencies,
    {
        self.rx_path_clock_frequencies
    }

    /// Sets the `rx_path_clock_frequencies` parameter, and returns the parameters for chaining.
    pub fn set_rx_path_clock_frequencies(&mut self, val: [u32; 6]) -> (r: &mut Self)
        ensures
            *r == (Ad9361InitParam { rx_path_clock_frequencies: val, ..*old(self) }),
            *final(self) == *final(r),
    {
        self.rx_path_clock_frequencies = val;
        self
    }

    /// The `tx_path_clock_frequencies` parameter.
    pub fn tx_path_clock_frequencies(&self) -> (r: [u32; 6])
        ensures
            r == self.tx_path_clock_frequencies,
    {
        self.tx_path_clock_frequencies
    }

    /// Sets the `tx_path_clock_frequencies` parameter, and returns the parameters for chaining.
    pub fn set_tx_path_clock_frequencies(&mut self, val: [u32; 6]) -> (r: &mut Self)
        ensures
            *r == (Ad9361InitParam { tx_path_clock_frequencies: val, ..*old(self) }),
            *final(self) == *final(r),
    {
        self.tx_path_clock_frequencies = val;
        self
    }

    /// The `rf_rx_bandwidth_hz` parameter.
    pub fn rf_rx_bandwidth_hz(&self) -> (r: u32)
        ensures
            r == self.rf_rx_bandwidth_hz,
    {
        self.rf_rx_bandwidth_hz
    }

    /// Sets the `rf_rx_bandwidth_hz` parameter, and returns the parameters for chaining.
    pub fn set_rf_rx_bandwidth_hz(&mut self, val: u32) -> (r: &mut Self)
        ensures
            *r == (Ad9361InitParam { rf_rx_bandwidth_hz: val, ..*old(self) }),
            *final(self) == *final(r),
    {
        self.rf_rx_bandwidth_hz = val;
        self
    }

    /// The `rf_tx_bandwidth_hz` parameter.
    pub fn rf_tx_bandwidth_hz(&self) -> (r: u32)
        ensures
            r == self.rf_tx_bandwidth_hz,
    {
        self.rf_tx_bandwidth_hz
    }

    /// Sets the `rf_tx_bandwidth_hz` parameter, and returns the parameters for chaining.
    pub fn set_rf_tx_bandwidth_hz(&mut self, val: u32) -> (r: &mut Self)
        ensures
            *r == (Ad9361InitParam { rf_tx_bandwidth_hz: val, ..*old(self) }),
            *final(self) == *final(r),
    {
        self.rf_tx_bandwidth_hz = val;
        self
    }

    /// The `rx_rf_port_input_select` parameter.
    pub fn rx_rf_port_input_select(&self) -> (r: u32)
        ensures
            r == self.rx_rf_port_input_select,
    {
        self.rx_rf_port_input_select
    }

    /// Sets the `rx_rf_port_input_select` parameter, and returns the parameters for chaining.
    pub fn set_rx_rf_port_input_select(&mut self, val: u32) -> (r: &mut Self)
        ensures
            *r == (Ad9361InitParam { rx_rf_port_input_select: val, ..*old(self) }),
            *final(self) == *final(r),
    {
        self.rx_rf_port_input_select = val;
        self
    }

    /// The `tx_rf_port_input_select` parameter.
    pub fn tx_rf_port_input_select(&self) -> (r: u32)
        ensures
            r == self.tx_rf_port_input_select,
    {
        self.tx_rf_port_input_select
    }

    /// Sets the `tx_rf_port_input_select` parameter, and returns the parameters for chaining.
    pub fn set_tx_rf_port_input_select(&mut self, val: u32) -> (r: &mut Self)
        ensures
            *r == (Ad9361InitParam { tx_rf_port_input_select: val, ..*old(self) }),
            *final(self) == *final(r),
    {
        self.tx_rf_port_input_select = val;
        self
    }

    /// The `tx_attenuation_mdB` parameter.
    pub fn tx_attenuation_md_b(&self) -> (r: i32)
        ensures
            r == self.tx_attenuation_md_b,
    {
        self.tx_attenuation_md_b
    }

    /// Sets the `tx_attenuation_mdB` parameter, and returns the parameters for chaining.
    pub fn set_tx_attenuation_md_b(&mut self, val: i32) -> (r: &mut Self)
        ensures
            *r == (Ad9361InitParam { tx_attenuation_md_b: val, ..*old(self) }),
            *final(self) == *final(r),
    {
        self.tx_attenuation_md_b = val;
        self
    }

    /// The `update_tx_gain_in_alert_enable` parameter.
    pub fn update_tx_gain_in_alert_enable(&self) -> (r: u8)
        ensures
            r == self.update_tx_gain_in_alert_enable,
    {
        self.update_tx_gain_in_alert_enable
    }

    /// Sets the `update_tx_gain_in_alert_enable` parameter, and returns the parameters for chaining.
    pub fn set_update_tx_gain_in_alert_enable(&mut self, val: u8) -> (r: &mut Self)
        ensures
            *r == (Ad9361InitParam { update_tx_gain_in_alert_enable: val, ..*old(self) }),
            *final(self) == *final(r),
    {
        self.update_tx_gain_in_alert_enable = val;
        self
    }

    /// The `xo_disable_use_ext_refclk_enable` parameter.
    pub fn xo_disable_use_ext_refclk_enable(&self) -> (r: u8)
        ensures
            r == self.xo_disable_use_ext_refclk_enable,
    {
        self.xo_disable_use_ext_refclk_enable
    }

    /// Sets the `xo_disable_use_ext_refclk_enable` parameter, and returns the parameters for chaining.
    pub fn set_xo_disable_use_ext_refclk_enable(&mut self, val: u8) -> (r: &mut Self)
        ensures
            *r == (Ad9361InitParam { xo_disable_use_ext_refclk_enable: val, ..*old(self) }),
            *final(self) == *final(r),
    {
        self.xo_disable_use_ext_refclk_enable = val;
        self
    }

    /// The `dcxo_coarse_and_fine_tune` parameter.
    pub fn dcxo_coarse_and_fine_tune(&self) -> (r: [u32; 2])
        ensures
            r == self.dcxo_coarse_and_fine_tune,
    {
        self.dcxo_coarse_and_fine_tune
    }

    /// Sets the `dcxo_coarse_and_fine_tune` parameter, and returns the parameters for chaining.
    pub fn set_dcxo_coarse_and_fine_tune(&mut self, val: [u32; 2]) -> (r: &mut Self)
        ensures
            *r == (Ad9361InitParam { dcxo_coarse_and_fine_tune: val, ..*old(self) }),
            *final(self) == *final(r),
    {
        self.dcxo_coarse_and_fine_tune = val;
        self
    }

    /// The `clk_output_mode_select` parameter.
    pub fn clk_output_mode_select(&self) -> (r: u32)
        ensures
            r == self.clk_output_mode_select,
    {
        self.clk_output_mode_select
    }

    /// Sets the `clk_output_mode_select` parameter, and returns the parameters for chaining.
    pub fn set_clk_output_mode_select(&mut self, val: u32) -> (r: &mut Self)
        ensures
            *r == (Ad9361InitParam { clk_output_mode_select: val, ..*old(self) }),
            *final(self) == *final(r),
    {
        self.clk_output_mode_select = val;
        self
    }
}

/// Gain control.
impl Ad9361InitParam {
    /// The `gc_rx1_mode` parameter.
    pub fn gc_rx1_mode(&self) -> (r: u8)
        ensures
            r == self.gc_rx1_mode,
    {
        self.gc_rx1_mode
    }

    /// Sets the `gc_rx1_mode` parameter, and returns the parameters for chaining.
    pub fn set_gc_rx1_mode(&mut self, val: u8) -> (r: &mut Self)
        ensures
            *r == (Ad9361InitParam { gc_rx1_mode: val, ..*old(self) }),
            *final(self) == *final(r),
    {
        self.gc_rx1_mode = val;
        self
    }

    /// The `gc_rx2_mode` parameter.
    pub fn gc_rx2_mode(&self) -> (r: u8)
        ensures
            r == self.gc_rx2_mode,
    {
        self.gc_rx2_mode
    }

    /// Sets the `gc_rx2_mode` parameter, and returns the parameters for chaining.
    pub fn set_gc_rx2_mode(&mut self, val: u8) -> (r: &mut Self)
        ensures
            *r == (Ad9361InitParam { gc_rx2_mode: val, ..*old(self) }),
            *final(self) == *final(r),
    {
        self.gc_rx2_mode = val;
        self
    }

    /// The `gc_adc_large_overload_thresh` parameter.
    pub fn gc_adc_large_overload_thresh(&self) -> (r: u8)
        ensures
            r == self.gc_adc_large_overload_thresh,
    {
        self.gc_adc_large_overload_thresh
    }

    /// Sets the `gc_adc_large_overload_thresh` parameter, and returns the parameters for chaining.
    pub fn set_gc_adc_large_overload_thresh(&mut self, val: u8) -> (r: &mut Self)
        ensures
            *r == (Ad9361InitParam { gc_adc_large_overload_thresh: val, ..*old(self) }),
            *final(self) == *final(r),
    {
        self.gc_adc_large_overload_thresh = val;
        self
    }

    /// The `gc_adc_ovr_sample_size` parameter.
    pub fn gc_adc_ovr_sample_size(&self) -> (r: u8)
        ensures
            r == self.gc_adc_ovr_sample_size,
    {
        self.gc_adc_ovr_sample_size
    }

    /// Sets the `gc_adc_ovr_sample_size` parameter, and returns the parameters for chaining.
    pub fn set_gc_adc_ovr_sample_size(&mut self, val: u8) -> (r: &mut Self)
        ensures
            *r == (Ad9361InitParam { gc_adc_ovr_sample_size: val, ..*old(self) }),
            *final(self) == *final(r),
    {
        self.gc_adc_ovr_sample_size = val;
        self
    }

    /// The `gc_adc_small_overload_thresh` parameter.
    pub fn gc_adc_small_overload_thresh(&self) -> (r: u8)
        ensures
            r == self.gc_adc_small_overload_thresh,
    {
        self.gc_adc_small_overload_thresh
    }

    /// Sets the `gc_adc_small_overload_thresh` parameter, and returns the parameters for chaining.
    pub fn set_gc_adc_small_overload_thresh(&mut self, val: u8) -> (r: &mut Self)
        ensures
            *r == (Ad9361InitParam { gc_adc_small_overload_thresh: val, ..*old(self) }),
            *final(self) == *final(r),
    {
        self.gc_adc_small_overload_thresh = val;
        self
    }

    /// The `gc_dec_pow_measurement_duration` parameter.
    pub fn gc_dec_pow_measurement_duration(&self) -> (r: u16)
        ensures
            r == self.gc_dec_pow_measurement_duration,
    {
        self.gc_dec_pow_measurement_duration
    }

    /// Sets the `gc_dec_pow_measurement_duration` parameter, and returns the parameters for chaining.
    pub fn set_gc_dec_pow_measurement_duration(&mut self, val: u16) -> (r: &mut Self)
        ensures
            *r == (Ad9361InitParam { gc_dec_pow_measurement_duration: val, ..*old(self) }),
            *final(self) == *final(r),
    {
        self.gc_dec_pow_measurement_duration = val;
        self
    }

    /// The `gc_dig_gain_enable` parameter.
    pub fn gc_dig_gain_enable(&self) -> (r: u8)
        ensures
            r == self.gc_dig_gain_enable,
    {
        self.gc_dig_gain_enable
    }

    /// Sets the `gc_dig_gain_enable` parameter, and returns the parameters for chaining.
    pub fn set_gc_dig_gain_enable(&mut self, val: u8) -> (r: &mut Self)
        ensures
            *r == (Ad9361InitParam { gc_dig_gain_enable: val, ..*old(self) }),
            *final(self) == *final(r),
    {
        self.gc_dig_gain_enable = val;
        self
    }

    /// The `gc_lmt_overload_high_thresh` parameter.
    pub fn gc_lmt_overload_high_thresh(&self) -> (r: u16)
        ensures
            r == self.gc_lmt_overload_high_thresh,
    {
        self.gc_lmt_overload_high_thresh
    }

    /// Sets the `gc_lmt_overload_high_thresh` parameter, and returns the parameters for chaining.
    pub fn set_gc_lmt_overload_high_thresh(&mut self, val: u16) -> (r: &mut Self)
        ensures
            *r == (Ad9361InitParam { gc_lmt_overload_high_thresh: val, ..*old(self) }),
            *final(self) == *final(r),
    {
        self.gc_lmt_overload_high_thresh = val;
        self
    }

    /// The `gc_lmt_overload_low_thresh` parameter.
    pub fn gc_lmt_overload_low_thresh(&self) -> (r: u16)
        ensures
            r == self.gc_lmt_overload_low_thresh,
    {
        self.gc_lmt_overload_low_thresh
    }

    /// Sets the `gc_lmt_overload_low_thresh` parameter, and returns the parameters for chaining.
    pub fn set_gc_lmt_overload_low_thresh(&mut self, val: u16) -> (r: &mut Self)
        ensures
            *r == (Ad9361InitParam { gc_lmt_overload_low_thresh: val, ..*old(self) }),
            *final(self) == *final(r),
    {
        self.gc_lmt_overload_low_thresh = val;
        self
    }

    /// The `gc_low_power_thresh` parameter.
    pub fn gc_low_power_thresh(&self) -> (r: u8)
        ensures
            r == self.gc_low_power_thresh,
    {
        self.gc_low_power_thresh
    }

    /// Sets the `gc_low_power_thresh` parameter, and returns the parameters for chaining.
    pub fn set_gc_low_power_thresh(&mut self, val: u8) -> (r: &mut Self)
        ensures
            *r == (Ad9361InitParam { gc_low_power_thresh: val, ..*old(self) }),
            *final(self) == *final(r),
    {
        self.gc_low_power_thresh = val;
        self
    }

    /// The `gc_max_dig_gain` parameter.
    pub fn gc_max_dig_gain(&self) -> (r: u8)
        ensures
            r == self.gc_max_dig_gain,
    {
        self.gc_max_dig_gain
    }

    /// Sets the `gc_max_dig_gain` parameter, and returns the parameters for chaining.
    pub fn set_gc_max_dig_gain(&mut self, val: u8) -> (r: &mut Self)
        ensures
            *r == (Ad9361InitParam { gc_max_dig_gain: val, ..*old(self) }),
            *final(self) == *final(r),
    {
        self.gc_max_dig_gain = val;
        self
    }

    /// The `gc_use_rx_fir_out_for_dec_pwr_meas_enable` parameter.
    pub fn gc_use_rx_fir_out_for_dec_pwr_meas_enable(&self) -> (r: u8)
        ensures
            r == self.gc_use_rx_fir_out_for_dec_pwr_meas_enable,
    {
        self.gc_use_rx_fir_out_for_dec_pwr_meas_enable
    }

    /// Sets the `gc_use_rx_fir_out_for_dec_pwr_meas_enable` parameter, and returns the parameters for chaining.
    pub fn set_gc_use_rx_fir_out_for_dec_pwr_meas_enable(&mut self, val: u8) -> (r: &mut Self)
        ensures
            *r == (Ad9361InitParam { gc_use_rx_fir_out_for_dec_pwr_meas_enable: val, ..*old(self) }),
            *final(self) == *final(r),
    {
        self.gc_use_rx_fir_out_for_dec_pwr_meas_enable = val;
        self
    }
}

/// Gain MGC Control.
impl Ad9361InitParam {
    /// The `mgc_dec_gain_step` parameter.
    pub fn mgc_dec_gain_step(&self) -> (r: u8)
        ensures
            r == self.mgc_dec_gain_step,
    {
        self.mgc_dec_gain_step
    }

    /// Sets the `mgc_dec_gain_step` parameter, and returns the parameters for chaining.
    pub fn set_mgc_dec_gain_step(&mut self, val: u8) -> (r: &mut Self)
        ensures
            *r == (Ad9361InitParam { mgc_dec_gain_step: val, ..*old(self) }),
            *final(self) == *final(r),
    {
        self.mgc_dec_gain_step = val;
        self
    }

    /// The `mgc_inc_gain_step` parameter.
    pub fn mgc_inc_gain_step(&self) -> (r: u8)
        ensures
            r == self.mgc_inc_gain_step,
    {
        self.mgc_inc_gain_step
    }

    /// Sets the `mgc_inc_gain_step` parameter, and returns the parameters for chaining.
    pub fn set_mgc_inc_gain_step(&mut self, val: u8) -> (r: &mut Self)
        ensures
            *r == (Ad9361InitParam { mgc_inc_gain_step: val, ..*old(self) }),
            *final(self) == *final(r),
    {
        self.mgc_inc_gain_step = val;
        self
    }

    /// The `mgc_rx1_ctrl_inp_enable` parameter.
    pub fn mgc_rx1_ctrl_inp_enable(&self) -> (r: u8)
        ensures
            r == self.mgc_rx1_ctrl_inp_enable,
    {
        self.mgc_rx1_ctrl_inp_enable
    }

    /// Sets the `mgc_rx1_ctrl_inp_enable` parameter, and returns the parameters for chaining.
    pub fn set_mgc_rx1_ctrl_inp_enable(&mut self, val: u8) -> (r: &mut Self)
        ensures
            *r == (Ad9361InitParam { mgc_rx1_ctrl_inp_enable: val, ..*old(self) }),
            *final(self) == *final(r),
    {
        self.mgc_rx1_ctrl_inp_enable = val;
        self
    }

    /// The `mgc_rx2_ctrl_inp_enable` parameter.
    pub fn mgc_rx2_ctrl_inp_enable(&self) -> (r: u8)
        ensures
            r == self.mgc_rx2_ctrl_inp_enable,
    {
        self.mgc_rx2_ctrl_inp_enable
    }

    /// Sets the `mgc_rx2_ctrl_inp_enable` parameter, and returns the parameters for chaining.
    pub fn set_mgc_rx2_ctrl_inp_enable(&mut self, val: u8) -> (r: &mut Self)
        ensures
            *r == (Ad9361InitParam { mgc_rx2_ctrl_inp_enable: val, ..*old(self) }),
            *final(self) == *final(r),
    {
        self.mgc_rx2_ctrl_inp_enable = val;
        self
    }

    /// The `mgc_split_table_ctrl_inp_gain_mode` parameter.
    pub fn mgc_split_table_ctrl_inp_gain_mode(&self) -> (r: u8)
        ensures
            r == self.mgc_split_table_ctrl_inp_gain_mode,
    {
        self.mgc_split_table_ctrl_inp_gain_mode
    }

    /// Sets the `mgc_split_table_ctrl_inp_gain_mode` parameter, and returns the parameters for chaining.
    pub fn set_mgc_split_table_ctrl_inp_gain_mode(&mut self, val: u8) -> (r: &mut Self)
        ensures
            *r == (Ad9361InitParam { mgc_split_table_ctrl_inp_gain_mode: val, ..*old(self) }),
            *final(self) == *final(r),
    {
        self.mgc_split_table_ctrl_inp_gain_mode = val;
        self
    }
}

/// Gain AGC Control.
impl Ad9361InitParam {
    /// The `agc_adc_large_overload_exceed_counter` parameter.
    pub fn agc_adc_large_overload_exceed_counter(&self) -> (r: u8)
        ensures
            r == self.agc_adc_large_overload_exceed_counter,
    {
        self.agc_adc_large_overload_exceed_counter
    }

    /// Sets the `agc_adc_large_overload_exceed_counter` parameter, and returns the parameters for chaining.
    pub fn set_agc_adc_large_overload_exceed_counter(&mut self, val: u8) -> (r: &mut Self)
        ensures
            *r == (Ad9361InitParam { agc_adc_large_overload_exceed_counter: val, ..*old(self) }),
            *final(self) == *final(r),
    {
        self.agc_adc_large_overload_exceed_counter = val;
        self
    }

    /// The `agc_adc_large_overload_inc_steps` parameter.
    pub fn agc_adc_large_overload_inc_steps(&self) -> (r: u8)
        ensures
            r == self.agc_adc_large_overload_inc_steps,
    {
        self.agc_adc_large_overload_inc_steps
    }

    /// Sets the `agc_adc_large_overload_inc_steps` parameter, and returns the parameters for chaining.
    pub fn set_agc_adc_large_overload_inc_steps(&mut self, val: u8) -> (r: &mut Self)
        ensures
            *r == (Ad9361InitParam { agc_adc_large_overload_inc_steps: val, ..*old(self) }),
            *final(self) == *final(r),
    {
        self.agc_adc_large_overload_inc_steps = val;
        self
    }

    /// The `agc_adc_lmt_small_overload_prevent_gain_inc_enable` parameter.
    pub fn agc_adc_lmt_small_overload_prevent_gain_inc_enable(&self) -> (r: u8)
        ensures
            r == self.agc_adc_lmt_small_overload_prevent_gain_inc_enable,
    {
        self.agc_adc_lmt_small_overload_prevent_gain_inc_enable
    }

    /// Sets the `agc_adc_lmt_small_overload_prevent_gain_inc_enable` parameter, and returns the parameters for chaining.
    pub fn set_agc_adc_lmt_small_overload_prevent_gain_inc_enable(&mut self, val: u8) -> (r: &mut Self)
        ensures
            *r == (Ad9361InitParam { agc_adc_lmt_small_overload_prevent_gain_inc_enable: val, ..*old(self) }),
            *final(self) == *final(r),
    {
        self.agc_adc_lmt_small_overload_prevent_gain_inc_enable = val;
        self
    }

    /// The `agc_adc_small_overload_exceed_counter` parameter.
    pub fn agc_adc_small_overload_exceed_counter(&self) -> (r: u8)
        ensures
            r == self.agc_adc_small_overload_exceed_counter,
    {
        self.agc_adc_small_overload_exceed_counter
    }

    /// Sets the `agc_adc_small_overload_exceed_counter` parameter, and returns the parameters for chaining.
    pub fn set_agc_adc_small_overload_exceed_counter(&mut self, val: u8) -> (r: &mut Self)
        ensures
            *r == (Ad9361InitParam { agc_adc_small_overload_exceed_counter: val, ..*old(self) }),
            *final(self) == *final(r),
    {
        self.agc_adc_small_overload_exceed_counter = val;
        self
    }

    /// The `agc_dig_gain_step_size` parameter.
    pub fn agc_dig_gain_step_size(&self) -> (r: u8)
        ensures
            r == self.agc_dig_gain_step_size,
    {
        self.agc_dig_gain_step_size
    }

    /// Sets the `agc_dig_gain_step_size` parameter, and returns the parameters for chaining.
    pub fn set_agc_dig_gain_step_size(&mut self, val: u8) -> (r: &mut Self)
        ensures
            *r == (Ad9361InitParam { agc_dig_gain_step_size: val, ..*old(self) }),
            *final(self) == *final(r),
    {
        self.agc_dig_gain_step_size = val;
        self
    }

    /// The `agc_dig_saturation_exceed_counter` parameter.
    pub fn agc_dig_saturation_exceed_counter(&self) -> (r: u8)
        ensures
            r == self.agc_dig_saturation_exceed_counter,
    {
        self.agc_dig_saturation_exceed_counter
    }

    /// Sets the `agc_dig_saturation_exceed_counter` parameter, and returns the parameters for chaining.
    pub fn set_agc_dig_saturation_exceed_counter(&mut self, val: u8) -> (r: &mut Self)
        ensures
            *r == (Ad9361InitParam { agc_dig_saturation_exceed_counter: val, ..*old(self) }),
            *final(self) == *final(r),
    {
        self.agc_dig_saturation_exceed_counter = val;
        self
    }

    /// The `agc_gain_update_interval_us` parameter.
    pub fn agc_gain_update_interval_us(&self) -> (r: u32)
        ensures
            r == self.agc_gain_update_interval_us,
    {
        self.agc_gain_update_interval_us
    }

    /// Sets the `agc_gain_update_interval_us` parameter, and returns the parameters for chaining.
    pub fn set_agc_gain_update_interval_us(&mut self, val: u32) -> (r: &mut Self)
        ensures
            *r == (Ad9361InitParam { agc_gain_update_interval_us: val, ..*old(self) }),
            *final(self) == *final(r),
    {
        self.agc_gain_update_interval_us = val;
        self
    }

    /// The `agc_immed_gain_change_if_large_adc_overload_enable` parameter.
    pub fn agc_immed_gain_change_if_large_adc_overload_enable(&self) -> (r: u8)
        ensures
            r == self.agc_immed_gain_change_if_large_adc_overload_enable,
    {
        self.agc_immed_gain_change_if_large_adc_overload_enable
    }

    /// Sets the `agc_immed_gain_change_if_large_adc_overload_enable` parameter, and returns the parameters for chaining.
    pub fn set_agc_immed_gain_change_if_large_adc_overload_enable(&mut self, val: u8) -> (r: &mut Self)
        ensures
            *r == (Ad9361InitParam { agc_immed_gain_change_if_large_adc_overload_enable: val, ..*old(self) }),
            *final(self) == *final(r),
    {
        self.agc_immed_gain_change_if_large_adc_overload_enable = val;
        self
    }

    /// The `agc_immed_gain_change_if_large_lmt_overload_enable` parameter.
    pub fn agc_immed_gain_change_if_large_lmt_overload_enable(&self) -> (r: u8)
        ensures
            r == self.agc_immed_gain_change_if_large_lmt_overload_enable,
    {
        self.agc_immed_gain_change_if_large_lmt_overload_enable
    }

    /// Sets the `agc_immed_gain_change_if_large_lmt_overload_enable` parameter, and returns the parameters for chaining.
    pub fn set_agc_immed_gain_change_if_large_lmt_overload_enable(&mut self, val: u8) -> (r: &mut Self)
        ensures
            *r == (Ad9361InitParam { agc_immed_gain_change_if_large_lmt_overload_enable: val, ..*old(self) }),
            *final(self) == *final(r),
    {
        self.agc_immed_gain_change_if_large_lmt_overload_enable = val;
        self
    }

    /// The `agc_inner_thresh_high` parameter.
    pub fn agc_inner_thresh_high(&self) -> (r: u8)
        ensures
            r == self.agc_inner_thresh_high,
    {
        self.agc_inner_thresh_high
    }

    /// Sets the `agc_inner_thresh_high` parameter, and returns the parameters for chaining.
    pub fn set_agc_inner_thresh_high(&mut self, val: u8) -> (r: &mut Self)
        ensures
            *r == (Ad9361InitParam { agc_inner_thresh_high: val, ..*old(self) }),
            *final(self) == *final(r),
    {
        self.agc_inner_thresh_high = val;
        self
    }

    /// The `agc_inner_thresh_high_dec_steps` parameter.
    pub fn agc_inner_thresh_high_dec_steps(&self) -> (r: u8)
        ensures
            r == self.agc_inner_thresh_high_dec_steps,
    {
        self.agc_inner_thresh_high_dec_steps
    }

    /// Sets the `agc_inner_thresh_high_dec_steps` parameter, and returns the parameters for chaining.
    pub fn set_agc_inner_thresh_high_dec_steps(&mut self, val: u8) -> (r: &mut Self)
        ensures
            *r == (Ad9361InitParam { agc_inner_thresh_high_dec_steps: val, ..*old(self) }),
            *final(self) == *final(r),
    {
        self.agc_inner_thresh_high_dec_steps = val;
        self
    }

    /// The `agc_inner_thresh_low` parameter.
    pub fn agc_inner_thresh_low(&self) -> (r: u8)
        ensures
            r == self.agc_inner_thresh_low,
    {
        self.agc_inner_thresh_low
    }

    /// Sets the `agc_inner_thresh_low` parameter, and returns the parameters for chaining.
    pub fn set_agc_inner_thresh_low(&mut self, val: u8) -> (r: &mut Self)
        ensures
            *r == (Ad9361InitParam { agc_inner_thresh_low: val, ..*old(self) }),
            *final(self) == *final(r),
    {
        self.agc_inner_thresh_low = val;
        self
    }

    /// The `agc_inner_thresh_low_inc_steps` parameter.
    pub fn agc_inner_thresh_low_inc_steps(&self) -> (r: u8)
        ensures
            r == self.agc_inner_thresh_low_inc_steps,
    {
        self.agc_inner_thresh_low_inc_steps
    }

    /// Sets the `agc_inner_thresh_low_inc_steps` parameter, and returns the parameters for chaining.
    pub fn set_agc_inner_thresh_low_inc_steps(&mut self, val: u8) -> (r: &mut Self)
        ensures
            *r == (Ad9361InitParam { agc_inner_thresh_low_inc_steps: val, ..*old(self) }),
            *final(self) == *final(r),
    {
        self.agc_inner_thresh_low_inc_steps = val;
        self
    }

    /// The `agc_lmt_overload_large_exceed_counter` parameter.
    pub fn agc_lmt_overload_large_exceed_counter(&self) -> (r: u8)
        ensures
            r == self.agc_lmt_overload_large_exceed_counter,
    {
        self.agc_lmt_overload_large_exceed_counter
    }

    /// Sets the `agc_lmt_overload_large_exceed_counter` parameter, and returns the parameters for chaining.
    pub fn set_agc_lmt_overload_large_exceed_counter(&mut self, val: u8) -> (r: &mut Self)
        ensures
            *r == (Ad9361InitParam { agc_lmt_overload_large_exceed_counter: val, ..*old(self) }),
            *final(self) == *final(r),
    {
        self.agc_lmt_overload_large_exceed_counter = val;
        self
    }

    /// The `agc_lmt_overload_large_inc_steps` parameter.
    pub fn agc_lmt_overload_large_inc_steps(&self) -> (r: u8)
        ensures
            r == self.agc_lmt_overload_large_inc_steps,
    {
        self.agc_lmt_overload_large_inc_steps
    }

    /// Sets the `agc_lmt_overload_large_inc_steps` parameter, and returns the parameters for chaining.
    pub fn set_agc_lmt_overload_large_inc_steps(&mut self, val: u8) -> (r: &mut Self)
        ensures
            *r == (Ad9361InitParam { agc_lmt_overload_large_inc_steps: val, ..*old(self) }),
            *final(self) == *final(r),
    {
        self.agc_lmt_overload_large_inc_steps = val;
        self
    }

    /// The `agc_lmt_overload_small_exceed_counter` parameter.
    pub fn agc_lmt_overload_small_exceed_counter(&self) -> (r: u8)
        ensures
            r == self.agc_lmt_overload_small_exceed_counter,
    {
        self.agc_lmt_overload_small_exceed_counter
    }

    /// Sets the `agc_lmt_overload_small_exceed_counter` parameter, and returns the parameters for chaining.
    pub fn set_agc_lmt_overload_small_exceed_counter(&mut self, val: u8) -> (r: &mut Self)
        ensures
            *r == (Ad9361InitParam { agc_lmt_overload_small_exceed_counter: val, ..*old(self) }),
            *final(self) == *final(r),
    {
        self.agc_lmt_overload_small_exceed_counter = val;
        self
    }

    /// The `agc_outer_thresh_high` parameter.
    pub fn agc_outer_thresh_high(&self) -> (r: u8)
        ensures
            r == self.agc_outer_thresh_high,
    {
        self.agc_outer_thresh_high
    }

    /// Sets the `agc_outer_thresh_high` parameter, and returns the parameters for chaining.
    pub fn set_agc_outer_thresh_high(&mut self, val: u8) -> (r: &mut Self)
        ensures
            *r == (Ad9361InitParam { agc_outer_thresh_high: val, ..*old(self) }),
            *final(self) == *final(r),
    {
        self.agc_outer_thresh_high = val;
        self
    }

    /// The `agc_outer_thresh_high_dec_steps` parameter.
    pub fn agc_outer_thresh_high_dec_steps(&self) -> (r: u8)
        ensures
            r == self.agc_outer_thresh_high_dec_steps,
    {
        self.agc_outer_thresh_high_dec_steps
    }

    /// Sets the `agc_outer_thresh_high_dec_steps` parameter, and returns the parameters for chaining.
    pub fn set_agc_outer_thresh_high_dec_steps(&mut self, val: u8) -> (r: &mut Self)
        ensures
            *r == (Ad9361InitParam { agc_outer_thresh_high_dec_steps: val, ..*old(self) }),
            *final(self) == *final(r),
    {
        self.agc_outer_thresh_high_dec_steps = val;
        self
    }

    /// The `agc_outer_thresh_low` parameter.
    pub fn agc_outer_thresh_low(&self) -> (r: u8)
        ensures
            r == self.agc_outer_thresh_low,
    {
        self.agc_outer_thresh_low
    }

    /// Sets the `agc_outer_thresh_low` parameter, and returns the parameters for chaining.
    pub fn set_agc_outer_thresh_low(&mut self, val: u8) -> (r: &mut Self)
        ensures
            *r == (Ad9361InitParam { agc_outer_thresh_low: val, ..*old(self) }),
            *final(self) == *final(r),
    {
        self.agc_outer_thresh_low = val;
        self
    }

    /// The `agc_outer_thresh_low_inc_steps` parameter.
    pub fn agc_outer_thresh_low_inc_steps(&self) -> (r: u8)
        ensures
            r == self.agc_outer_thresh_low_inc_steps,
    {
        self.agc_outer_thresh_low_inc_steps
    }

    /// Sets the `agc_outer_thresh_low_inc_steps` parameter, and returns the parameters for chaining.
    pub fn set_agc_outer_thresh_low_inc_steps(&mut self, val: u8) -> (r: &mut Self)
        ensures
            *r == (Ad9361InitParam { agc_outer_thresh_low_inc_steps: val, ..*old(self) }),
            *final(self) == *final(r),
    {
        self.agc_outer_thresh_low_inc_steps = val;
        self
    }

    /// The `agc_attack_delay_extra_margin_us` parameter.
    pub fn agc_attack_delay_extra_margin_us(&self) -> (r: u32)
        ensures
            r == self.agc_attack_delay_extra_margin_us,
    {
        self.agc_attack_delay_extra_margin_us
    }

    /// Sets the `agc_attack_delay_extra_margin_us` parameter, and returns the parameters for chaining.
    pub fn set_agc_attack_delay_extra_margin_us(&mut self, val: u32) -> (r: &mut Self)
        ensures
            *r == (Ad9361InitParam { agc_attack_delay_extra_margin_us: val, ..*old(self) }),
            *final(self) == *final(r),
    {
        self.agc_attack_delay_extra_margin_us = val;
        self
    }

    /// The `agc_sync_for_gain_counter_enable` parameter.
    pub fn agc_sync_for_gain_counter_enable(&self) -> (r: u8)
        ensures
            r == self.agc_sync_for_gain_counter_enable,
    {
        self.agc_sync_for_gain_counter_enable
    }

    /// Sets the `agc_sync_for_gain_counter_enable` parameter, and returns the parameters for chaining.
    pub fn set_agc_sync_for_gain_counter_enable(&mut self, val: u8) -> (r: &mut Self)
        ensures
            *r == (Ad9361InitParam { agc_sync_for_gain_counter_enable: val, ..*old(self) }),
            *final(self) == *final(r),
    {
        self.agc_sync_for_gain_counter_enable = val;
        self
    }
}

/// Fast AGC.
impl Ad9361InitParam {
    /// The `fagc_dec_pow_measuremnt_duration` parameter.
    pub fn fagc_dec_pow_measuremnt_duration(&self) -> (r: u32)
        ensures
            r == self.fagc_dec_pow_measuremnt_duration,
    {
        self.fagc_dec_pow_measuremnt_duration
    }

    /// Sets the `fagc_dec_pow_measuremnt_duration` parameter, and returns the parameters for chaining.
    pub fn set_fagc_dec_pow_measuremnt_duration(&mut self, val: u32) -> (r: &mut Self)
        ensures
            *r == (Ad9361InitParam { fagc_dec_pow_measuremnt_duration: val, ..*old(self) }),
            *final(self) == *final(r),
    {
        self.fagc_dec_pow_measuremnt_duration = val;
        self
    }

    /// The `fagc_state_wait_time_ns` parameter.
    pub fn fagc_state_wait_time_ns(&self) -> (r: u32)
        ensures
            r == self.fagc_state_wait_time_ns,
    {
        self.fagc_state_wait_time_ns
    }

    /// Sets the `fagc_state_wait_time_ns` parameter, and returns the parameters for chaining.
    pub fn set_fagc_state_wait_time_ns(&mut self, val: u32) -> (r: &mut Self)
        ensures
            *r == (Ad9361InitParam { fagc_state_wait_time_ns: val, ..*old(self) }),
            *final(self) == *final(r),
    {
        self.fagc_state_wait_time_ns = val;
        self
    }

    /// The `fagc_allow_agc_gain_increase` parameter.
    pub fn fagc_allow_agc_gain_increase(&self) -> (r: u8)
        ensures
            r == self.fagc_allow_agc_gain_increase,
    {
        self.fagc_allow_agc_gain_increase
    }

    /// Sets the `fagc_allow_agc_gain_increase` parameter, and returns the parameters for chaining.
    pub fn set_fagc_allow_agc_gain_increase(&mut self, val: u8) -> (r: &mut Self)
        ensures
            *r == (Ad9361InitParam { fagc_allow_agc_gain_increase: val, ..*old(self) }),
            *final(self) == *final(r),
    {
        self.fagc_allow_agc_gain_increase = val;
        self
    }

    /// The `fagc_lp_thresh_increment_time` parameter.
    pub fn fagc_lp_thresh_increment_time(&self) -> (r: u32)
        ensures
            r == self.fagc_lp_thresh_increment_time,
    {
        self.fagc_lp_thresh_increment_time
    }

    /// Sets the `fagc_lp_thresh_increment_time` parameter, and returns the parameters for chaining.
    pub fn set_fagc_lp_thresh_increment_time(&mut self, val: u32) -> (r: &mut Self)
        ensures
            *r == (Ad9361InitParam { fagc_lp_thresh_increment_time: val, ..*old(self) }),
            *final(self) == *final(r),
    {
        self.fagc_lp_thresh_increment_time = val;
        self
    }

    /// The `fagc_lp_thresh_increment_steps` parameter.
    pub fn fagc_lp_thresh_increment_steps(&self) -> (r: u32)
        ensures
            r == self.fagc_lp_thresh_increment_steps,
    {
        self.fagc_lp_thresh_increment_steps
    }

    /// Sets the `fagc_lp_thresh_increment_steps` parameter, and returns the parameters for chaining.
    pub fn set_fagc_lp_thresh_increment_steps(&mut self, val: u32) -> (r: &mut Self)
        ensures
            *r == (Ad9361InitParam { fagc_lp_thresh_increment_steps: val, ..*old(self) }),
            *final(self) == *final(r),
    {
        self.fagc_lp_thresh_increment_steps = val;
        self
    }

    /// The `fagc_lock_level_lmt_gain_increase_en` parameter.
    pub fn fagc_lock_level_lmt_gain_increase_en(&self) -> (r: u8)
        ensures
            r == self.fagc_lock_level_lmt_gain_increase_en,
    {
        self.fagc_lock_level_lmt_gain_increase_en
    }

    /// Sets the `fagc_lock_level_lmt_gain_increase_en` parameter, and returns the parameters for chaining.
    pub fn set_fagc_lock_level_lmt_gain_increase_en(&mut self, val: u8) -> (r: &mut Self)
        ensures
            *r == (Ad9361InitParam { fagc_lock_level_lmt_gain_increase_en: val, ..*old(self) }),
            *final(self) == *final(r),
    {
        self.fagc_lock_level_lmt_gain_increase_en = val;
        self
    }

    /// The `fagc_lock_level_gain_increase_upper_limit` parameter.
    pub fn fagc_lock_level_gain_increase_upper_limit(&self) -> (r: u32)
        ensures
            r == self.fagc_lock_level_gain_increase_upper_limit,
    {
        self.fagc_lock_level_gain_increase_upper_limit
    }

    /// Sets the `fagc_lock_level_gain_increase_upper_limit` parameter, and returns the parameters for chaining.
    pub fn set_fagc_lock_level_gain_increase_upper_limit(&mut self, val: u32) -> (r: &mut Self)
        ensures
            *r == (Ad9361InitParam { fagc_lock_level_gain_increase_upper_limit: val, ..*old(self) }),
            *final(self) == *final(r),
    {
        self.fagc_lock_level_gain_increase_upper_limit = val;
        self
    }

    /// The `fagc_lpf_final_settling_steps` parameter.
    pub fn fagc_lpf_final_settling_steps(&self) -> (r: u32)
        ensures
            r == self.fagc_lpf_final_settling_steps,
    {
        self.fagc_lpf_final_settling_steps
    }

    /// Sets the `fagc_lpf_final_settling_steps` parameter, and returns the parameters for chaining.
    pub fn set_fagc_lpf_final_settling_steps(&mut self, val: u32) -> (r: &mut Self)
        ensures
            *r == (Ad9361InitParam { fagc_lpf_final_settling_steps: val, ..*old(self) }),
            *final(self) == *final(r),
    {
        self.fagc_lpf_final_settling_steps = val;
        self
    }

    /// The `fagc_lmt_final_settling_steps` parameter.
    pub fn fagc_lmt_final_settling_steps(&self) -> (r: u32)
        ensures
            r == self.fagc_lmt_final_settling_steps,
    {
        self.fagc_lmt_final_settling_steps
    }

    /// Sets the `fagc_lmt_final_settling_steps` parameter, and returns the parameters for chaining.
    pub fn set_fagc_lmt_final_settling_steps(&mut self, val: u32) -> (r: &mut Self)
        ensures
            *r == (Ad9361InitParam { fagc_lmt_final_settling_steps: val, ..*old(self) }),
            *final(self) == *final(r),
    {
        self.fagc_lmt_final_settling_steps = val;
        self
    }

    /// The `fagc_final_overrange_count` parameter.
    pub fn fagc_final_overrange_count(&self) -> (r: u32)
        ensures
            r == self.fagc_final_overrange_count,
    {
        self.fagc_final_overrange_count
    }

    /// Sets the `fagc_final_overrange_count` parameter, and returns the parameters for chaining.
    pub fn set_fagc_final_overrange_count(&mut self, val: u32) -> (r: &mut Self)
        ensures
            *r == (Ad9361InitParam { fagc_final_overrange_count: val, ..*old(self) }),
            *final(self) == *final(r),
    {
        self.fagc_final_overrange_count = val;
        self
    }

    /// The `fagc_gain_increase_after_gain_lock_en` parameter.
    pub fn fagc_gain_increase_after_gain_lock_en(&self) -> (r: u8)
        ensures
            r == self.fagc_gain_increase_after_gain_lock_en,
    {
        self.fagc_gain_increase_after_gain_lock_en
    }

    /// Sets the `fagc_gain_increase_after_gain_lock_en` parameter, and returns the parameters for chaining.
    pub fn set_fagc_gain_increase_after_gain_lock_en(&mut self, val: u8) -> (r: &mut Self)
        ensures
            *r == (Ad9361InitParam { fagc_gain_increase_after_gain_lock_en: val, ..*old(self) }),
            *final(self) == *final(r),
    {
        self.fagc_gain_increase_after_gain_lock_en = val;
        self
    }

    /// The `fagc_gain_index_type_after_exit_rx_mode` parameter.
    pub fn fagc_gain_index_type_after_exit_rx_mode(&self) -> (r: u32)
        ensures
            r == self.fagc_gain_index_type_after_exit_rx_mode,
    {
        self.fagc_gain_index_type_after_exit_rx_mode
    }

    /// Sets the `fagc_gain_index_type_after_exit_rx_mode` parameter, and returns the parameters for chaining.
    pub fn set_fagc_gain_index_type_after_exit_rx_mode(&mut self, val: u32) -> (r: &mut Self)
        ensures
            *r == (Ad9361InitParam { fagc_gain_index_type_after_exit_rx_mode: val, ..*old(self) }),
            *final(self) == *final(r),
    {
        self.fagc_gain_index_type_after_exit_rx_mode = val;
        self
    }

    /// The `fagc_use_last_lock_level_for_set_gain_en` parameter.
    pub fn fagc_use_last_lock_level_for_set_gain_en(&self) -> (r: u8)
        ensures
            r == self.fagc_use_last_lock_level_for_set_gain_en,
    {
        self.fagc_use_last_lock_level_for_set_gain_en
    }

    /// Sets the `fagc_use_last_lock_level_for_set_gain_en` parameter, and returns the parameters for chaining.
    pub fn set_fagc_use_last_lock_level_for_set_gain_en(&mut self, val: u8) -> (r: &mut Self)
        ensures
            *r == (Ad9361InitParam { fagc_use_last_lock_level_for_set_gain_en: val, ..*old(self) }),
            *final(self) == *final(r),
    {
        self.fagc_use_last_lock_level_for_set_gain_en = val;
        self
    }

    /// The `fagc_rst_gla_stronger_sig_thresh_exceeded_en` parameter.
    pub fn fagc_rst_gla_stronger_sig_thresh_exceeded_en(&self) -> (r: u8)
        ensures
            r == self.fagc_rst_gla_stronger_sig_thresh_exceeded_en,
    {
        self.fagc_rst_gla_stronger_sig_thresh_exceeded_en
    }

    /// Sets the `fagc_rst_gla_stronger_sig_thresh_exceeded_en` parameter, and returns the parameters for chaining.
    pub fn set_fagc_rst_gla_stronger_sig_thresh_exceeded_en(&mut self, val: u8) -> (r: &mut Self)
        ensures
            *r == (Ad9361InitParam { fagc_rst_gla_stronger_sig_thresh_exceeded_en: val, ..*old(self) }),
            *final(self) == *final(r),
    {
        self.fagc_rst_gla_stronger_sig_thresh_exceeded_en = val;
        self
    }

    /// The `fagc_optimized_gain_offset` parameter.
    pub fn fagc_optimized_gain_offset(&self) -> (r: u32)
        ensures
            r == self.fagc_optimized_gain_offset,
    {
        self.fagc_optimized_gain_offset
    }

    /// Sets the `fagc_optimized_gain_offset` parameter, and returns the parameters for chaining.
    pub fn set_fagc_optimized_gain_offset(&mut self, val: u32) -> (r: &mut Self)
        ensures
            *r == (Ad9361InitParam { fagc_optimized_gain_offset: val, ..*old(self) }),
            *final(self) == *final(r),
    {
        self.fagc_optimized_gain_offset = val;
        self
    }

    /// The `fagc_rst_gla_stronger_sig_thresh_above_ll` parameter.
    pub fn fagc_rst_gla_stronger_sig_thresh_above_ll(&self) -> (r: u32)
        ensures
            r == self.fagc_rst_gla_stronger_sig_thresh_above_ll,
    {
        self.fagc_rst_gla_stronger_sig_thresh_above_ll
    }

    /// Sets the `fagc_rst_gla_stronger_sig_thresh_above_ll` parameter, and returns the parameters for chaining.
    pub fn set_fagc_rst_gla_stronger_sig_thresh_above_ll(&mut self, val: u32) -> (r: &mut Self)
        ensures
            *r == (Ad9361InitParam { fagc_rst_gla_stronger_sig_thresh_above_ll: val, ..*old(self) }),
            *final(self) == *final(r),
    {
        self.fagc_rst_gla_stronger_sig_thresh_above_ll = val;
        self
    }

    /// The `fagc_rst_gla_engergy_lost_sig_thresh_exceeded_en` parameter.
    pub fn fagc_rst_gla_engergy_lost_sig_thresh_exceeded_en(&self) -> (r: u8)
        ensures
            r == self.fagc_rst_gla_engergy_lost_sig_thresh_exceeded_en,
    {
        self.fagc_rst_gla_engergy_lost_sig_thresh_exceeded_en
    }

    /// Sets the `fagc_rst_gla_engergy_lost_sig_thresh_exceeded_en` parameter, and returns the parameters for chaining.
    pub fn set_fagc_rst_gla_engergy_lost_sig_thresh_exceeded_en(&mut self, val: u8) -> (r: &mut Self)
        ensures
            *r == (Ad9361InitParam { fagc_rst_gla_engergy_lost_sig_thresh_exceeded_en: val, ..*old(self) }),
            *final(self) == *final(r),
    {
        self.fagc_rst_gla_engergy_lost_sig_thresh_exceeded_en = val;
        self
    }

    /// The `fagc_rst_gla_engergy_lost_goto_optim_gain_en` parameter.
    pub fn fagc_rst_gla_engergy_lost_goto_optim_gain_en(&self) -> (r: u8)
        ensures
            r == self.fagc_rst_gla_engergy_lost_goto_optim_gain_en,
    {
        self.fagc_rst_gla_engergy_lost_goto_optim_gain_en
    }

    /// Sets the `fagc_rst_gla_engergy_lost_goto_optim_gain_en` parameter, and returns the parameters for chaining.
    pub fn set_fagc_rst_gla_engergy_lost_goto_optim_gain_en(&mut self, val: u8) -> (r: &mut Self)
        ensures
            *r == (Ad9361InitParam { fagc_rst_gla_engergy_lost_goto_optim_gain_en: val, ..*old(self) }),
            *final(self) == *final(r),
    {
        self.fagc_rst_gla_engergy_lost_goto_optim_gain_en = val;
        self
    }

    /// The `fagc_rst_gla_engergy_lost_sig_thresh_below_ll` parameter.
    pub fn fagc_rst_gla_engergy_lost_sig_thresh_below_ll(&self) -> (r: u32)
        ensures
            r == self.fagc_rst_gla_engergy_lost_sig_thresh_below_ll,
    {
        self.fagc_rst_gla_engergy_lost_sig_thresh_below_ll
    }

    /// Sets the `fagc_rst_gla_engergy_lost_sig_thresh_below_ll` parameter, and returns the parameters for chaining.
    pub fn set_fagc_rst_gla_engergy_lost_sig_thresh_below_ll(&mut self, val: u32) -> (r: &mut Self)
        ensures
            *r == (Ad9361InitParam { fagc_rst_gla_engergy_lost_sig_thresh_below_ll: val, ..*old(self) }),
            *final(self) == *final(r),
    {
        self.fagc_rst_gla_engergy_lost_sig_thresh_below_ll = val;
        self
    }

    /// The `fagc_energy_lost_stronger_sig_gain_lock_exit_cnt` parameter.
    pub fn fagc_energy_lost_stronger_sig_gain_lock_exit_cnt(&self) -> (r: u32)
        ensures
            r == self.fagc_energy_lost_stronger_sig_gain_lock_exit_cnt,
    {
        self.fagc_energy_lost_stronger_sig_gain_lock_exit_cnt
    }

    /// Sets the `fagc_energy_lost_stronger_sig_gain_lock_exit_cnt` parameter, and returns the parameters for chaining.
    pub fn set_fagc_energy_lost_stronger_sig_gain_lock_exit_cnt(&mut self, val: u32) -> (r: &mut Self)
        ensures
            *r == (Ad9361InitParam { fagc_energy_lost_stronger_sig_gain_lock_exit_cnt: val, ..*old(self) }),
            *final(self) == *final(r),
    {
        self.fagc_energy_lost_stronger_sig_gain_lock_exit_cnt = val;
        self
    }

    /// The `fagc_rst_gla_large_adc_overload_en` parameter.
    pub fn fagc_rst_gla_large_adc_overload_en(&self) -> (r: u8)
        ensures
            r == self.fagc_rst_gla_large_adc_overload_en,
    {
        self.fagc_rst_gla_large_adc_overload_en
    }

    /// Sets the `fagc_rst_gla_large_adc_overload_en` parameter, and returns the parameters for chaining.
    pub fn set_fagc_rst_gla_large_adc_overload_en(&mut self, val: u8) -> (r: &mut Self)
        ensures
            *r == (Ad9361InitParam { fagc_rst_gla_large_adc_overload_en: val, ..*old(self) }),
            *final(self) == *final(r),
    {
        self.fagc_rst_gla_large_adc_overload_en = val;
        self
    }

    /// The `fagc_rst_gla_large_lmt_overload_en` parameter.
    pub fn fagc_rst_gla_large_lmt_overload_en(&self) -> (r: u8)
        ensures
            r == self.fagc_rst_gla_large_lmt_overload_en,
    {
        self.fagc_rst_gla_large_lmt_overload_en
    }

    /// Sets the `fagc_rst_gla_large_lmt_overload_en` parameter, and returns the parameters for chaining.
    pub fn set_fagc_rst_gla_large_lmt_overload_en(&mut self, val: u8) -> (r: &mut Self)
        ensures
            *r == (Ad9361InitParam { fagc_rst_gla_large_lmt_overload_en: val, ..*old(self) }),
            *final(self) == *final(r),
    {
        self.fagc_rst_gla_large_lmt_overload_en = val;
        self
    }

    /// The `fagc_rst_gla_en_agc_pulled_high_en` parameter.
    pub fn fagc_rst_gla_en_agc_pulled_high_en(&self) -> (r: u8)
        ensures
            r == self.fagc_rst_gla_en_agc_pulled_high_en,
    {
        self.fagc_rst_gla_en_agc_pulled_high_en
    }

    /// Sets the `fagc_rst_gla_en_agc_pulled_high_en` parameter, and returns the parameters for chaining.
    pub fn set_fagc_rst_gla_en_agc_pulled_high_en(&mut self, val: u8) -> (r: &mut Self)
        ensures
            *r == (Ad9361InitParam { fagc_rst_gla_en_agc_pulled_high_en: val, ..*old(self) }),
            *final(self) == *final(r),
    {
        self.fagc_rst_gla_en_agc_pulled_high_en = val;
        self
    }

    /// The `fagc_rst_gla_if_en_agc_pulled_high_mode` parameter.
    pub fn fagc_rst_gla_if_en_agc_pulled_high_mode(&self) -> (r: u32)
        ensures
            r == self.fagc_rst_gla_if_en_agc_pulled_high_mode,
    {
        self.fagc_rst_gla_if_en_agc_pulled_high_mode
    }

    /// Sets the `fagc_rst_gla_if_en_agc_pulled_high_mode` parameter, and returns the parameters for chaining.
    pub fn set_fagc_rst_gla_if_en_agc_pulled_high_mode(&mut self, val: u32) -> (r: &mut Self)
        ensures
            *r == (Ad9361InitParam { fagc_rst_gla_if_en_agc_pulled_high_mode: val, ..*old(self) }),
            *final(self) == *final(r),
    {
        self.fagc_rst_gla_if_en_agc_pulled_high_mode = val;
        self
    }

    /// The `fagc_power_measurement_duration_in_state5` parameter.
    pub fn fagc_power_measurement_duration_in_state5(&self) -> (r: u32)
        ensures
            r == self.fagc_power_measurement_duration_in_state5,
    {
        self.fagc_power_measurement_duration_in_state5
    }

    /// Sets the `fagc_power_measurement_duration_in_state5` parameter, and returns the parameters for chaining.
    pub fn set_fagc_power_measurement_duration_in_state5(&mut self, val: u32) -> (r: &mut Self)
        ensures
            *r == (Ad9361InitParam { fagc_power_measurement_duration_in_state5: val, ..*old(self) }),
            *final(self) == *final(r),
    {
        self.fagc_power_measurement_duration_in_state5 = val;
        self
    }

    /// The `fagc_large_overload_inc_steps` parameter.
    pub fn fagc_large_overload_inc_steps(&self) -> (r: u32)
        ensures
            r == self.fagc_large_overload_inc_steps,
    {
        self.fagc_large_overload_inc_steps
    }

    /// Sets the `fagc_large_overload_inc_steps` parameter, and returns the parameters for chaining.
    pub fn set_fagc_large_overload_inc_steps(&mut self, val: u32) -> (r: &mut Self)
        ensures
            *r == (Ad9361InitParam { fagc_large_overload_inc_steps: val, ..*old(self) }),
            *final(self) == *final(r),
    {
        self.fagc_large_overload_inc_steps = val;
        self
    }
}

/// RSSI Control.
impl Ad9361InitParam {
    /// The `rssi_delay` parameter.
    pub fn rssi_delay(&self) -> (r: u32)
        ensures
            r == self.rssi_delay,
    {
        self.rssi_delay
    }

    /// Sets the `rssi_delay` parameter, and returns the parameters for chaining.
    pub fn set_rssi_delay(&mut self, val: u32) -> (r: &mut Self)
        ensures
            *r == (Ad9361InitParam { rssi_delay: val, ..*old(self) }),
            *final(self) == *final(r),
    {
        self.rssi_delay = val;
        self
    }

    /// The `rssi_duration` parameter.
    pub fn rssi_duration(&self) -> (r: u32)
        ensures
            r == self.rssi_duration,
    {
        self.rssi_duration
    }

    /// Sets the `rssi_duration` parameter, and returns the parameters for chaining.
    pub fn set_rssi_duration(&mut self, val: u32) -> (r: &mut Self)
        ensures
            *r == (Ad9361InitParam { rssi_duration: val, ..*old(self) }),
            *final(self) == *final(r),
    {
        self.rssi_duration = val;
        self
    }

    /// The `rssi_restart_mode` parameter.
    pub fn rssi_restart_mode(&self) -> (r: u8)
        ensures
            r == self.rssi_restart_mode,
    {
        self.rssi_restart_mode
    }

    /// Sets the `rssi_restart_mode` parameter, and returns the parameters for chaining.
    pub fn set_rssi_restart_mode(&mut self, val: u8) -> (r: &mut Self)
        ensures
            *r == (Ad9361InitParam { rssi_restart_mode: val, ..*old(self) }),
            *final(self) == *final(r),
    {
        self.rssi_restart_mode = val;
        self
    }

    /// The `rssi_unit_is_rx_samples_enable` parameter.
    pub fn rssi_unit_is_rx_samples_enable(&self) -> (r: u8)
        ensures
            r == self.rssi_unit_is_rx_samples_enable,
    {
        self.rssi_unit_is_rx_samples_enable
    }

    /// Sets the `rssi_unit_is_rx_samples_enable` parameter, and returns the parameters for chaining.
    pub fn set_rssi_unit_is_rx_samples_enable(&mut self, val: u8) -> (r: &mut Self)
        ensures
            *r == (Ad9361InitParam { rssi_unit_is_rx_samples_enable: val, ..*old(self) }),
            *final(self) == *final(r),
    {
        self.rssi_unit_is_rx_samples_enable = val;
        self
    }

    /// The `rssi_wait` parameter.
    pub fn rssi_wait(&self) -> (r: u32)
        ensures
            r == self.rssi_wait,
    {
        self.rssi_wait
    }

    /// Sets the `rssi_wait` parameter, and returns the parameters for chaining.
    pub fn set_rssi_wait(&mut self, val: u32) -> (r: &mut Self)
        ensures
            *r == (Ad9361InitParam { rssi_wait: val, ..*old(self) }),
            *final(self) == *final(r),
    {
        self.rssi_wait = val;
        self
    }
}

/// Aux ADC Control.
impl Ad9361InitParam {
    /// The `aux_adc_decimation` parameter.
    pub fn aux_adc_decimation(&self) -> (r: u32)
        ensures
            r == self.aux_adc_decimation,
    {
        self.aux_adc_decimation
    }

    /// Sets the `aux_adc_decimation` parameter, and returns the parameters for chaining.
    pub fn set_aux_adc_decimation(&mut self, val: u32) -> (r: &mut Self)
        ensures
            *r == (Ad9361InitParam { aux_adc_decimation: val, ..*old(self) }),
            *final(self) == *final(r),
    {
        self.aux_adc_decimation = val;
        self
    }

    /// The `aux_adc_rate` parameter.
    pub fn aux_adc_rate(&self) -> (r: u32)
        ensures
            r == self.aux_adc_rate,
    {
        self.aux_adc_rate
    }

    /// Sets the `aux_adc_rate` parameter, and returns the parameters for chaining.
    pub fn set_aux_adc_rate(&mut self, val: u32) -> (r: &mut Self)
        ensures
            *r == (Ad9361InitParam { aux_adc_rate: val, ..*old(self) }),
            *final(self) == *final(r),
    {
        self.aux_adc_rate = val;
        self
    }
}

/// AuxDAC Control.
impl Ad9361InitParam {
    /// The `aux_dac_manual_mode_enable` parameter.
    pub fn aux_dac_manual_mode_enable(&self) -> (r: u8)
        ensures
            r == self.aux_dac_manual_mode_enable,
    {
        self.aux_dac_manual_mode_enable
    }

    /// Sets the `aux_dac_manual_mode_enable` parameter, and returns the parameters for chaining.
    pub fn set_aux_dac_manual_mode_enable(&mut self, val: u8) -> (r: &mut Self)
        ensures
            *r == (Ad9361InitParam { aux_dac_manual_mode_enable: val, ..*old(self) }),
            *final(self) == *final(r),
    {
        self.aux_dac_manual_mode_enable = val;
        self
    }

    /// The `aux_dac1_default_value_mV` parameter.
    pub fn aux_dac1_default_value_m_v(&self) -> (r: u32)
        ensures
            r == self.aux_dac1_default_value_m_v,
    {
        self.aux_dac1_default_value_m_v
    }

    /// Sets the `aux_dac1_default_value_mV` parameter, and returns the parameters for chaining.
    pub fn set_aux_dac1_default_value_m_v(&mut self, val: u32) -> (r: &mut Self)
        ensures
            *r == (Ad9361InitParam { aux_dac1_default_value_m_v: val, ..*old(self) }),
            *final(self) == *final(r),
    {
        self.aux_dac1_default_value_m_v = val;
        self
    }

    /// The `aux_dac1_active_in_rx_enable` parameter.
    pub fn aux_dac1_active_in_rx_enable(&self) -> (r: u8)
        ensures
            r == self.aux_dac1_active_in_rx_enable,
    {
        self.aux_dac1_active_in_rx_enable
    }

    /// Sets the `aux_dac1_active_in_rx_enable` parameter, and returns the parameters for chaining.
    pub fn set_aux_dac1_active_in_rx_enable(&mut self, val: u8) -> (r: &mut Self)
        ensures
            *r == (Ad9361InitParam { aux_dac1_active_in_rx_enable: val, ..*old(self) }),
            *final(self) == *final(r),
    {
        self.aux_dac1_active_in_rx_enable = val;
        self
    }

    /// The `aux_dac1_active_in_tx_enable` parameter.
    pub fn aux_dac1_active_in_tx_enable(&self) -> (r: u8)
        ensures
            r == self.aux_dac1_active_in_tx_enable,
    {
        self.aux_dac1_active_in_tx_enable
    }

    /// Sets the `aux_dac1_active_in_tx_enable` parameter, and returns the parameters for chaining.
    pub fn set_aux_dac1_active_in_tx_enable(&mut self, val: u8) -> (r: &mut Self)
        ensures
            *r == (Ad9361InitParam { aux_dac1_active_in_tx_enable: val, ..*old(self) }),
            *final(self) == *final(r),
    {
        self.aux_dac1_active_in_tx_enable = val;
        self
    }

    /// The `aux_dac1_active_in_alert_enable` parameter.
    pub fn aux_dac1_active_in_alert_enable(&self) -> (r: u8)
        ensures
            r == self.aux_dac1_active_in_alert_enable,
    {
        self.aux_dac1_active_in_alert_enable
    }

    /// Sets the `aux_dac1_active_in_alert_enable` parameter, and returns the parameters for chaining.
    pub fn set_aux_dac1_active_in_alert_enable(&mut self, val: u8) -> (r: &mut Self)
        ensures
            *r == (Ad9361InitParam { aux_dac1_active_in_alert_enable: val, ..*old(self) }),
            *final(self) == *final(r),
    {
        self.aux_dac1_active_in_alert_enable = val;
        self
    }

    /// The `aux_dac1_rx_delay_us` parameter.
    pub fn aux_dac1_rx_delay_us(&self) -> (r: u32)
        ensures
            r == self.aux_dac1_rx_delay_us,
    {
        self.aux_dac1_rx_delay_us
    }

    /// Sets the `aux_dac1_rx_delay_us` parameter, and returns the parameters for chaining.
    pub fn set_aux_dac1_rx_delay_us(&mut self, val: u32) -> (r: &mut Self)
        ensures
            *r == (Ad9361InitParam { aux_dac1_rx_delay_us: val, ..*old(self) }),
            *final(self) == *final(r),
    {
        self.aux_dac1_rx_delay_us = val;
        self
    }

    /// The `aux_dac1_tx_delay_us` parameter.
    pub fn aux_dac1_tx_delay_us(&self) -> (r: u32)
        ensures
            r == self.aux_dac1_tx_delay_us,
    {
        self.aux_dac1_tx_delay_us
    }

    /// Sets the `aux_dac1_tx_delay_us` parameter, and returns the parameters for chaining.
    pub fn set_aux_dac1_tx_delay_us(&mut self, val: u32) -> (r: &mut Self)
        ensures
            *r == (Ad9361InitParam { aux_dac1_tx_delay_us: val, ..*old(self) }),
            *final(self) == *final(r),
    {
        self.aux_dac1_tx_delay_us = val;
        self
    }

    /// The `aux_dac2_default_value_mV` parameter.
    pub fn aux_dac2_default_value_m_v(&self) -> (r: u32)
        ensures
            r == self.aux_dac2_default_value_m_v,
    {
        self.aux_dac2_default_value_m_v
    }

    /// Sets the `aux_dac2_default_value_mV` parameter, and returns the parameters for chaining.
    pub fn set_aux_dac2_default_value_m_v(&mut self, val: u32) -> (r: &mut Self)
        ensures
            *r == (Ad9361InitParam { aux_dac2_default_value_m_v: val, ..*old(self) }),
            *final(self) == *final(r),
    {
        self.aux_dac2_default_value_m_v = val;
        self
    }

    /// The `aux_dac2_active_in_rx_enable` parameter.
    pub fn aux_dac2_active_in_rx_enable(&self) -> (r: u8)
        ensures
            r == self.aux_dac2_active_in_rx_enable,
    {
        self.aux_dac2_active_in_rx_enable
    }

    /// Sets the `aux_dac2_active_in_rx_enable` parameter, and returns the parameters for chaining.
    pub fn set_aux_dac2_active_in_rx_enable(&mut self, val: u8) -> (r: &mut Self)
        ensures
            *r == (Ad9361InitParam { aux_dac2_active_in_rx_enable: val, ..*old(self) }),
            *final(self) == *final(r),
    {
        self.aux_dac2_active_in_rx_enable = val;
        self
    }

    /// The `aux_dac2_active_in_tx_enable` parameter.
    pub fn aux_dac2_active_in_tx_enable(&self) -> (r: u8)
        ensures
            r == self.aux_dac2_active_in_tx_enable,
    {
        self.aux_dac2_active_in_tx_enable
    }

    /// Sets the `aux_dac2_active_in_tx_enable` parameter, and returns the parameters for chaining.
    pub fn set_aux_dac2_active_in_tx_enable(&mut self, val: u8) -> (r: &mut Self)
        ensures
            *r == (Ad9361InitParam { aux_dac2_active_in_tx_enable: val, ..*old(self) }),
            *final(self) == *final(r),
    {
        self.aux_dac2_active_in_tx_enable = val;
        self
    }

    /// The `aux_dac2_active_in_alert_enable` parameter.
    pub fn aux_dac2_active_in_alert_enable(&self) -> (r: u8)
        ensures
            r == self.aux_dac2_active_in_alert_enable,
    {
        self.aux_dac2_active_in_alert_enable
    }

    /// Sets the `aux_dac2_active_in_alert_enable` parameter, and returns the parameters for chaining.
    pub fn set_aux_dac2_active_in_alert_enable(&mut self, val: u8) -> (r: &mut Self)
        ensures
            *r == (Ad9361InitParam { aux_dac2_active_in_alert_enable: val, ..*old(self) }),
            *final(self) == *final(r),
    {
        self.aux_dac2_active_in_alert_enable = val;
        self
    }

    /// The `aux_dac2_rx_delay_us` parameter.
    pub fn aux_dac2_rx_delay_us(&self) -> (r: u32)
        ensures
            r == self.aux_dac2_rx_delay_us,
    {
        self.aux_dac2_rx_delay_us
    }

    /// Sets the `aux_dac2_rx_delay_us` parameter, and returns the parameters for chaining.
    pub fn set_aux_dac2_rx_delay_us(&mut self, val: u32) -> (r: &mut Self)
        ensures
            *r == (Ad9361InitParam { aux_dac2_rx_delay_us: val, ..*old(self) }),
            *final(self) == *final(r),
    {
        self.aux_dac2_rx_delay_us = val;
        self
    }

    /// The `aux_dac2_tx_delay_us` parameter.
    pub fn aux_dac2_tx_delay_us(&self) -> (r: u32)
        ensures
            r == self.aux_dac2_tx_delay_us,
    {
        self.aux_dac2_tx_delay_us
    }

    /// Sets the `aux_dac2_tx_delay_us` parameter, and returns the parameters for chaining.
    pub fn set_aux_dac2_tx_delay_us(&mut self, val: u32) -> (r: &mut Self)
        ensures
            *r == (Ad9361InitParam { aux_dac2_tx_delay_us: val, ..*old(self) }),
            *final(self) == *final(r),
    {
        self.aux_dac2_tx_delay_us = val;
        self
    }
}

/// Temperature Sensor Control.
impl Ad9361InitParam {
    /// The `temp_sense_decimation` parameter.
    pub fn temp_sense_decimation(&self) -> (r: u32)
        ensures
            r == self.temp_sense_decimation,
    {
        self.temp_sense_decimation
    }

    /// Sets the `temp_sense_decimation` parameter, and returns the parameters for chaining.
    pub fn set_temp_sense_decimation(&mut self, val: u32) -> (r: &mut Self)
        ensures
            *r == (Ad9361InitParam { temp_sense_decimation: val, ..*old(self) }),
            *final(self) == *final(r),
    {
        self.temp_sense_decimation = val;
        self
    }

    /// The `temp_sense_measurement_interval_ms` parameter.
    pub fn temp_sense_measurement_interval_ms(&self) -> (r: u16)
        ensures
            r == self.temp_sense_measurement_interval_ms,
    {
        self.temp_sense_measurement_interval_ms
    }

    /// Sets the `temp_sense_measurement_interval_ms` parameter, and returns the parameters for chaining.
    pub fn set_temp_sense_measurement_interval_ms(&mut self, val: u16) -> (r: &mut Self)
        ensures
            *r == (Ad9361InitParam { temp_sense_measurement_interval_ms: val, ..*old(self) }),
            *final(self) == *final(r),
    {
        self.temp_sense_measurement_interval_ms = val;
        self
    }

    /// The `temp_sense_offset_signed` parameter.
    pub fn temp_sense_offset_signed(&self) -> (r: i8)
        ensures
            r == self.temp_sense_offset_signed,
    {
        self.temp_sense_offset_signed
    }

    /// Sets the `temp_sense_offset_signed` parameter, and returns the parameters for chaining.
    pub fn set_temp_sense_offset_signed(&mut self, val: i8) -> (r: &mut Self)
        ensures
            *r == (Ad9361InitParam { temp_sense_offset_signed: val, ..*old(self) }),
            *final(self) == *final(r),
    {
        self.temp_sense_offset_signed = val;
        self
    }

    /// The `temp_sense_periodic_measurement_enable` parameter.
    pub fn temp_sense_periodic_measurement_enable(&self) -> (r: u8)
        ensures
            r == self.temp_sense_periodic_measurement_enable,
    {
        self.temp_sense_periodic_measurement_enable
    }

    /// Sets the `temp_sense_periodic_measurement_enable` parameter, and returns the parameters for chaining.
    pub fn set_temp_sense_periodic_measurement_enable(&mut self, val: u8) -> (r: &mut Self)
        ensures
            *r == (Ad9361InitParam { temp_sense_periodic_measurement_enable: val, ..*old(self) }),
            *final(self) == *final(r),
    {
        self.temp_sense_periodic_measurement_enable = val;
        self
    }
}

/// Control Out Setup.
impl Ad9361InitParam {
    /// The `ctrl_outs_enable_mask` parameter.
    pub fn ctrl_outs_enable_mask(&self) -> (r: u8)
        ensures
            r == self.ctrl_outs_enable_mask,
    {
        self.ctrl_outs_enable_mask
    }

    /// Sets the `ctrl_outs_enable_mask` parameter, and returns the parameters for chaining.
    pub fn set_ctrl_outs_enable_mask(&mut self, val: u8) -> (r: &mut Self)
        ensures
            *r == (Ad9361InitParam { ctrl_outs_enable_mask: val, ..*old(self) }),
            *final(self) == *final(r),
    {
        self.ctrl_outs_enable_mask = val;
        self
    }

    /// The `ctrl_outs_index` parameter.
    pub fn ctrl_outs_index(&self) -> (r: u8)
        ensures
            r == self.ctrl_outs_index,
    {
        self.ctrl_outs_index
    }

    /// Sets the `ctrl_outs_index` parameter, and returns the parameters for chaining.
    pub fn set_ctrl_outs_index(&mut self, val: u8) -> (r: &mut Self)
        ensures
            *r == (Ad9361InitParam { ctrl_outs_index: val, ..*old(self) }),
            *final(self) == *final(r),
    {
        self.ctrl_outs_index = val;
        self
    }

    /// The `elna_settling_delay_ns` parameter.
    pub fn elna_settling_delay_ns(&self) -> (r: u32)
        ensures
            r == self.elna_settling_delay_ns,
    {
        self.elna_settling_delay_ns
    }

    /// Sets the `elna_settling_delay_ns` parameter, and returns the parameters for chaining.
    pub fn set_elna_settling_delay_ns(&mut self, val: u32) -> (r: &mut Self)
        ensures
            *r == (Ad9361InitParam { elna_settling_delay_ns: val, ..*old(self) }),
            *final(self) == *final(r),
    {
        self.elna_settling_delay_ns = val;
        self
    }

    /// The `elna_gain_mdB` parameter.
    pub fn elna_gain_md_b(&self) -> (r: u32)
        ensures
            r == self.elna_gain_md_b,
    {
        self.elna_gain_md_b
    }

    /// Sets the `elna_gain_mdB` parameter, and returns the parameters for chaining.
    pub fn set_elna_gain_md_b(&mut self, val: u32) -> (r: &mut Self)
        ensures
            *r == (Ad9361InitParam { elna_gain_md_b: val, ..*old(self) }),
            *final(self) == *final(r),
    {
        self.elna_gain_md_b = val;
        self
    }

    /// The `elna_bypass_loss_mdB` parameter.
    pub fn elna_bypass_loss_md_b(&self) -> (r: u32)
        ensures
            r == self.elna_bypass_loss_md_b,
    {
        self.elna_bypass_loss_md_b
    }

    /// Sets the `elna_bypass_loss_mdB` parameter, and returns the parameters for chaining.
    pub fn set_elna_bypass_loss_md_b(&mut self, val: u32) -> (r: &mut Self)
        ensures
            *r == (Ad9361InitParam { elna_bypass_loss_md_b: val, ..*old(self) }),
            *final(self) == *final(r),
    {
        self.elna_bypass_loss_md_b = val;
        self
    }

    /// The `elna_rx1_gpo0_control_enable` parameter.
    pub fn elna_rx1_gpo0_control_enable(&self) -> (r: u8)
        ensures
            r == self.elna_rx1_gpo0_control_enable,
    {
        self.elna_rx1_gpo0_control_enable
    }

    /// Sets the `elna_rx1_gpo0_control_enable` parameter, and returns the parameters for chaining.
    pub fn set_elna_rx1_gpo0_control_enable(&mut self, val: u8) -> (r: &mut Self)
        ensures
            *r == (Ad9361InitParam { elna_rx1_gpo0_control_enable: val, ..*old(self) }),
            *final(self) == *final(r),
    {
        self.elna_rx1_gpo0_control_enable = val;
        self
    }

    /// The `elna_rx2_gpo1_control_enable` parameter.
    pub fn elna_rx2_gpo1_control_enable(&self) -> (r: u8)
        ensures
            r == self.elna_rx2_gpo1_control_enable,
    {
        self.elna_rx2_gpo1_control_enable
    }

    /// Sets the `elna_rx2_gpo1_control_enable` parameter, and returns the parameters for chaining.
    pub fn set_elna_rx2_gpo1_control_enable(&mut self, val: u8) -> (r: &mut Self)
        ensures
            *r == (Ad9361InitParam { elna_rx2_gpo1_control_enable: val, ..*old(self) }),
            *final(self) == *final(r),
    {
        self.elna_rx2_gpo1_control_enable = val;
        self
    }

    /// The `elna_gaintable_all_index_enable` parameter.
    pub fn elna_gaintable_all_index_enable(&self) -> (r: u8)
        ensures
            r == self.elna_gaintable_all_index_enable,
    {
        self.elna_gaintable_all_index_enable
    }

    /// Sets the `elna_gaintable_all_index_enable` parameter, and returns the parameters for chaining.
    pub fn set_elna_gaintable_all_index_enable(&mut self, val: u8) -> (r: &mut Self)
        ensures
            *r == (Ad9361InitParam { elna_gaintable_all_index_enable: val, ..*old(self) }),
            *final(self) == *final(r),
    {
        self.elna_gaintable_all_index_enable = val;
        self
    }
}

/// Digital Interface Control.
impl Ad9361InitParam {
    /// The `digital_interface_tune_skip_mode` parameter.
    pub fn digital_interface_tune_skip_mode(&self) -> (r: u8)
        ensures
            r == self.digital_interface_tune_skip_mode,
    {
        self.digital_interface_tune_skip_mode
    }

    /// Sets the `digital_interface_tune_skip_mode` parameter, and returns the parameters for chaining.
    pub fn set_digital_interface_tune_skip_mode(&mut self, val: u8) -> (r: &mut Self)
        ensures
            *r == (Ad9361InitParam { digital_interface_tune_skip_mode: val, ..*old(self) }),
            *final(self) == *final(r),
    {
        self.digital_interface_tune_skip_mode = val;
        self
    }

    /// The `digital_interface_tune_fir_disable` parameter.
    pub fn digital_interface_tune_fir_disable(&self) -> (r: u8)
        ensures
            r == self.digital_interface_tune_fir_disable,
    {
        self.digital_interface_tune_fir_disable
    }

    /// Sets the `digital_interface_tune_fir_disable` parameter, and returns the parameters for chaining.
    pub fn set_digital_interface_tune_fir_disable(&mut self, val: u8) -> (r: &mut Self)
        ensures
            *r == (Ad9361InitParam { digital_interface_tune_fir_disable: val, ..*old(self) }),
            *final(self) == *final(r),
    {
        self.digital_interface_tune_fir_disable = val;
        self
    }

    /// The `pp_tx_swap_enable` parameter.
    pub fn pp_tx_swap_enable(&self) -> (r: u8)
        ensures
            r == self.pp_tx_swap_enable,
    {
        self.pp_tx_swap_enable
    }

    /// Sets the `pp_tx_swap_enable` parameter, and returns the parameters for chaining.
    pub fn set_pp_tx_swap_enable(&mut self, val: u8) -> (r: &mut Self)
        ensures
            *r == (Ad9361InitParam { pp_tx_swap_enable: val, ..*old(self) }),
            *final(self) == *final(r),
    {
        self.pp_tx_swap_enable = val;
        self
    }

    /// The `pp_rx_swap_enable` parameter.
    pub fn pp_rx_swap_enable(&self) -> (r: u8)
        ensures
            r == self.pp_rx_swap_enable,
    {
        self.pp_rx_swap_enable
    }

    /// Sets the `pp_rx_swap_enable` parameter, and returns the parameters for chaining.
    pub fn set_pp_rx_swap_enable(&mut self, val: u8) -> (r: &mut Self)
        ensures
            *r == (Ad9361InitParam { pp_rx_swap_enable: val, ..*old(self) }),
            *final(self) == *final(r),
    {
        self.pp_rx_swap_enable = val;
        self
    }

    /// The `tx_channel_swap_enable` parameter.
    pub fn tx_channel_swap_enable(&self) -> (r: u8)
        ensures
            r == self.tx_channel_swap_enable,
    {
        self.tx_channel_swap_enable
    }

    /// Sets the `tx_channel_swap_enable` parameter, and returns the parameters for chaining.
    pub fn set_tx_channel_swap_enable(&mut self, val: u8) -> (r: &mut Self)
        ensures
            *r == (Ad9361InitParam { tx_channel_swap_enable: val, ..*old(self) }),
            *final(self) == *final(r),
    {
        self.tx_channel_swap_enable = val;
        self
    }

    /// The `rx_channel_swap_enable` parameter.
    pub fn rx_channel_swap_enable(&self) -> (r: u8)
        ensures
            r == self.rx_channel_swap_enable,
    {
        self.rx_channel_swap_enable
    }

    /// Sets the `rx_channel_swap_enable` parameter, and returns the parameters for chaining.
    pub fn set_rx_channel_swap_enable(&mut self, val: u8) -> (r: &mut Self)
        ensures
            *r == (Ad9361InitParam { rx_channel_swap_enable: val, ..*old(self) }),
            *final(self) == *final(r),
    {
        self.rx_channel_swap_enable = val;
        self
    }

    /// The `rx_frame_pulse_mode_enable` parameter.
    pub fn rx_frame_pulse_mode_enable(&self) -> (r: u8)
        ensures
            r == self.rx_frame_pulse_mode_enable,
    {
        self.rx_frame_pulse_mode_enable
    }

    /// Sets the `rx_frame_pulse_mode_enable` parameter, and returns the parameters for chaining.
    pub fn set_rx_frame_pulse_mode_enable(&mut self, val: u8) -> (r: &mut Self)
        ensures
            *r == (Ad9361InitParam { rx_frame_pulse_mode_enable: val, ..*old(self) }),
            *final(self) == *final(r),
    {
        self.rx_frame_pulse_mode_enable = val;
        self
    }

    /// The `two_t_two_r_timing_enable` parameter.
    pub fn two_t_two_r_timing_enable(&self) -> (r: u8)
        ensures
            r == self.two_t_two_r_timing_enable,
    {
        self.two_t_two_r_timing_enable
    }

    /// Sets the `two_t_two_r_timing_enable` parameter, and returns the parameters for chaining.
    pub fn set_two_t_two_r_timing_enable(&mut self, val: u8) -> (r: &mut Self)
        ensures
            *r == (Ad9361InitParam { two_t_two_r_timing_enable: val, ..*old(self) }),
            *final(self) == *final(r),
    {
        self.two_t_two_r_timing_enable = val;
        self
    }

    /// The `invert_data_bus_enable` parameter.
    pub fn invert_data_bus_enable(&self) -> (r: u8)
        ensures
            r == self.invert_data_bus_enable,
    {
        self.invert_data_bus_enable
    }

    /// Sets the `invert_data_bus_enable` parameter, and returns the parameters for chaining.
    pub fn set_invert_data_bus_enable(&mut self, val: u8) -> (r: &mut Self)
        ensures
            *r == (Ad9361InitParam { invert_data_bus_enable: val, ..*old(self) }),
            *final(self) == *final(r),
    {
        self.invert_data_bus_enable = val;
        self
    }

    /// The `invert_data_clk_enable` parameter.
    pub fn invert_data_clk_enable(&self) -> (r: u8)
        ensures
            r == self.invert_data_clk_enable,
    {
        self.invert_data_clk_enable
    }

    /// Sets the `invert_data_clk_enable` parameter, and returns the parameters for chaining.
    pub fn set_invert_data_clk_enable(&mut self, val: u8) -> (r: &mut Self)
        ensures
            *r == (Ad9361InitParam { invert_data_clk_enable: val, ..*old(self) }),
            *final(self) == *final(r),
    {
        self.invert_data_clk_enable = val;
        self
    }

    /// The `fdd_alt_word_order_enable` parameter.
    pub fn fdd_alt_word_order_enable(&self) -> (r: u8)
        ensures
            r == self.fdd_alt_word_order_enable,
    {
        self.fdd_alt_word_order_enable
    }

    /// Sets the `fdd_alt_word_order_enable` parameter, and returns the parameters for chaining.
    pub fn set_fdd_alt_word_order_enable(&mut self, val: u8) -> (r: &mut Self)
        ensures
            *r == (Ad9361InitParam { fdd_alt_word_order_enable: val, ..*old(self) }),
            *final(self) == *final(r),
    {
        self.fdd_alt_word_order_enable = val;
        self
    }

    /// The `invert_rx_frame_enable` parameter.
    pub fn invert_rx_frame_enable(&self) -> (r: u8)
        ensures
            r == self.invert_rx_frame_enable,
    {
        self.invert_rx_frame_enable
    }

    /// Sets the `invert_rx_frame_enable` parameter, and returns the parameters for chaining.
    pub fn set_invert_rx_frame_enable(&mut self, val: u8) -> (r: &mut Self)
        ensures
            *r == (Ad9361InitParam { invert_rx_frame_enable: val, ..*old(self) }),
            *final(self) == *final(r),
    {
        self.invert_rx_frame_enable = val;
        self
    }

    /// The `fdd_rx_rate_2tx_enable` parameter.
    pub fn fdd_rx_rate_2tx_enable(&self) -> (r: u8)
        ensures
            r == self.fdd_rx_rate_2tx_enable,
    {
        self.fdd_rx_rate_2tx_enable
    }

    /// Sets the `fdd_rx_rate_2tx_enable` parameter, and returns the parameters for chaining.
    pub fn set_fdd_rx_rate_2tx_enable(&mut self, val: u8) -> (r: &mut Self)
        ensures
            *r == (Ad9361InitParam { fdd_rx_rate_2tx_enable: val, ..*old(self) }),
            *final(self) == *final(r),
    {
        self.fdd_rx_rate_2tx_enable = val;
        self
    }

    /// The `swap_ports_enable` parameter.
    pub fn swap_ports_enable(&self) -> (r: u8)
        ensures
            r == self.swap_ports_enable,
    {
        self.swap_ports_enable
    }

    /// Sets the `swap_ports_enable` parameter, and returns the parameters for chaining.
    pub fn set_swap_ports_enable(&mut self, val: u8) -> (r: &mut Self)
        ensures
            *r == (Ad9361InitParam { swap_ports_enable: val, ..*old(self) }),
            *final(self) == *final(r),
    {
        self.swap_ports_enable = val;
        self
    }

    /// The `single_data_rate_enable` parameter.
    pub fn single_data_rate_enable(&self) -> (r: u8)
        ensures
            r == self.single_data_rate_enable,
    {
        self.single_data_rate_enable
    }

    /// Sets the `single_data_rate_enable` parameter, and returns the parameters for chaining.
    pub fn set_single_data_rate_enable(&mut self, val: u8) -> (r: &mut Self)
        ensures
            *r == (Ad9361InitParam { single_data_rate_enable: val, ..*old(self) }),
            *final(self) == *final(r),
    {
        self.single_data_rate_enable = val;
        self
    }

    /// The `lvds_mode_enable` parameter.
    pub fn lvds_mode_enable(&self) -> (r: u8)
        ensures
            r == self.lvds_mode_enable,
    {
        self.lvds_mode_enable
    }

    /// Sets the `lvds_mode_enable` parameter, and returns the parameters for chaining.
    pub fn set_lvds_mode_enable(&mut self, val: u8) -> (r: &mut Self)
        ensures
            *r == (Ad9361InitParam { lvds_mode_enable: val, ..*old(self) }),
            *final(self) == *final(r),
    {
        self.lvds_mode_enable = val;
        self
    }

    /// The `half_duplex_mode_enable` parameter.
    pub fn half_duplex_mode_enable(&self) -> (r: u8)
        ensures
            r == self.half_duplex_mode_enable,
    {
        self.half_duplex_mode_enable
    }

    /// Sets the `half_duplex_mode_enable` parameter, and returns the parameters for chaining.
    pub fn set_half_duplex_mode_enable(&mut self, val: u8) -> (r: &mut Self)
        ensures
            *r == (Ad9361InitParam { half_duplex_mode_enable: val, ..*old(self) }),
            *final(self) == *final(r),
    {
        self.half_duplex_mode_enable = val;
        self
    }

    /// The `single_port_mode_enable` parameter.
    pub fn single_port_mode_enable(&self) -> (r: u8)
        ensures
            r == self.single_port_mode_enable,
    {
        self.single_port_mode_enable
    }

    /// Sets the `single_port_mode_enable` parameter, and returns the parameters for chaining.
    pub fn set_single_port_mode_enable(&mut self, val: u8) -> (r: &mut Self)
        ensures
            *r == (Ad9361InitParam { single_port_mode_enable: val, ..*old(self) }),
            *final(self) == *final(r),
    {
        self.single_port_mode_enable = val;
        self
    }

    /// The `full_port_enable` parameter.
    pub fn full_port_enable(&self) -> (r: u8)
        ensures
            r == self.full_port_enable,
    {
        self.full_port_enable
    }

    /// Sets the `full_port_enable` parameter, and returns the parameters for chaining.
    pub fn set_full_port_enable(&mut self, val: u8) -> (r: &mut Self)
        ensures
            *r == (Ad9361InitParam { full_port_enable: val, ..*old(self) }),
            *final(self) == *final(r),
    {
        self.full_port_enable = val;
        self
    }

    /// The `full_duplex_swap_bits_enable` parameter.
    pub fn full_duplex_swap_bits_enable(&self) -> (r: u8)
        ensures
            r == self.full_duplex_swap_bits_enable,
    {
        self.full_duplex_swap_bits_enable
    }

    /// Sets the `full_duplex_swap_bits_enable` parameter, and returns the parameters for chaining.
    pub fn set_full_duplex_swap_bits_enable(&mut self, val: u8) -> (r: &mut Self)
        ensures
            *r == (Ad9361InitParam { full_duplex_swap_bits_enable: val, ..*old(self) }),
            *final(self) == *final(r),
    {
        self.full_duplex_swap_bits_enable = val;
        self
    }

    /// The `delay_rx_data` parameter.
    pub fn delay_rx_data(&self) -> (r: u32)
        ensures
            r == self.delay_rx_data,
    {
        self.delay_rx_data
    }

    /// Sets the `delay_rx_data` parameter, and returns the parameters for chaining.
    pub fn set_delay_rx_data(&mut self, val: u32) -> (r: &mut Self)
        ensures
            *r == (Ad9361InitParam { delay_rx_data: val, ..*old(self) }),
            *final(self) == *final(r),
    {
        self.delay_rx_data = val;
        self
    }

    /// The `rx_data_clock_delay` parameter.
    pub fn rx_data_clock_delay(&self) -> (r: u32)
        ensures
            r == self.rx_data_clock_delay,
    {
        self.rx_data_clock_delay
    }

    /// Sets the `rx_data_clock_delay` parameter, and returns the parameters for chaining.
    pub fn set_rx_data_clock_delay(&mut self, val: u32) -> (r: &mut Self)
        ensures
            *r == (Ad9361InitParam { rx_data_clock_delay: val, ..*old(self) }),
            *final(self) == *final(r),
    {
        self.rx_data_clock_delay = val;
        self
    }

    /// The `rx_data_delay` parameter.
    pub fn rx_data_delay(&self) -> (r: u32)
        ensures
            r == self.rx_data_delay,
    {
        self.rx_data_delay
    }

    /// Sets the `rx_data_delay` parameter, and returns the parameters for chaining.
    pub fn set_rx_data_delay(&mut self, val: u32) -> (r: &mut Self)
        ensures
            *r == (Ad9361InitParam { rx_data_delay: val, ..*old(self) }),
            *final(self) == *final(r),
    {
        self.rx_data_delay = val;
        self
    }

    /// The `tx_fb_clock_delay` parameter.
    pub fn tx_fb_clock_delay(&self) -> (r: u32)
        ensures
            r == self.tx_fb_clock_delay,
    {
        self.tx_fb_clock_delay
    }

    /// Sets the `tx_fb_clock_delay` parameter, and returns the parameters for chaining.
    pub fn set_tx_fb_clock_delay(&mut self, val: u32) -> (r: &mut Self)
        ensures
            *r == (Ad9361InitParam { tx_fb_clock_delay: val, ..*old(self) }),
            *final(self) == *final(r),
    {
        self.tx_fb_clock_delay = val;
        self
    }

    /// The `tx_data_delay` parameter.
    pub fn tx_data_delay(&self) -> (r: u32)
        ensures
            r == self.tx_data_delay,
    {
        self.tx_data_delay
    }

    /// Sets the `tx_data_delay` parameter, and returns the parameters for chaining.
    pub fn set_tx_data_delay(&mut self, val: u32) -> (r: &mut Self)
        ensures
            *r == (Ad9361InitParam { tx_data_delay: val, ..*old(self) }),
            *final(self) == *final(r),
    {
        self.tx_data_delay = val;
        self
    }

    /// The `lvds_bias_mV` parameter.
    pub fn lvds_bias_m_v(&self) -> (r: u32)
        ensures
            r == self.lvds_bias_m_v,
    {
        self.lvds_bias_m_v
    }

    /// Sets the `lvds_bias_mV` parameter, and returns the parameters for chaining.
    pub fn set_lvds_bias_m_v(&mut self, val: u32) -> (r: &mut Self)
        ensures
            *r == (Ad9361InitParam { lvds_bias_m_v: val, ..*old(self) }),
            *final(self) == *final(r),
    {
        self.lvds_bias_m_v = val;
        self
    }

    /// The `lvds_rx_onchip_termination_enable` parameter.
    pub fn lvds_rx_onchip_termination_enable(&self) -> (r: u8)
        ensures
            r == self.lvds_rx_onchip_termination_enable,
    {
        self.lvds_rx_onchip_termination_enable
    }

    /// Sets the `lvds_rx_onchip_termination_enable` parameter, and returns the parameters for chaining.
    pub fn set_lvds_rx_onchip_termination_enable(&mut self, val: u8) -> (r: &mut Self)
        ensures
            *r == (Ad9361InitParam { lvds_rx_onchip_termination_enable: val, ..*old(self) }),
            *final(self) == *final(r),
    {
        self.lvds_rx_onchip_termination_enable = val;
        self
    }

    /// The `rx1rx2_phase_inversion_en` parameter.
    pub fn rx1rx2_phase_inversion_en(&self) -> (r: u8)
        ensures
            r == self.rx1rx2_phase_inversion_en,
    {
        self.rx1rx2_phase_inversion_en
    }

    /// Sets the `rx1rx2_phase_inversion_en` parameter, and returns the parameters for chaining.
    pub fn set_rx1rx2_phase_inversion_en(&mut self, val: u8) -> (r: &mut Self)
        ensures
            *r == (Ad9361InitParam { rx1rx2_phase_inversion_en: val, ..*old(self) }),
            *final(self) == *final(r),
    {
        self.rx1rx2_phase_inversion_en = val;
        self
    }

    /// The `lvds_invert1_control` parameter.
    pub fn lvds_invert1_control(&self) -> (r: u8)
        ensures
            r == self.lvds_invert1_control,
    {
        self.lvds_invert1_control
    }

    /// Sets the `lvds_invert1_control` parameter, and returns the parameters for chaining.
    pub fn set_lvds_invert1_control(&mut self, val: u8) -> (r: &mut Self)
        ensures
            *r == (Ad9361InitParam { lvds_invert1_control: val, ..*old(self) }),
            *final(self) == *final(r),
    {
        self.lvds_invert1_control = val;
        self
    }

    /// The `lvds_invert2_control` parameter.
    pub fn lvds_invert2_control(&self) -> (r: u8)
        ensures
            r == self.lvds_invert2_control,
    {
        self.lvds_invert2_control
    }

    /// Sets the `lvds_invert2_control` parameter, and returns the parameters for chaining.
    pub fn set_lvds_invert2_control(&mut self, val: u8) -> (r: &mut Self)
        ensures
            *r == (Ad9361InitParam { lvds_invert2_control: val, ..*old(self) }),
            *final(self) == *final(r),
    {
        self.lvds_invert2_control = val;
        self
    }
}

/// GPO Control.
impl Ad9361InitParam {
    /// The `gpo_manual_mode_enable` parameter.
    pub fn gpo_manual_mode_enable(&self) -> (r: u8)
        ensures
            r == self.gpo_manual_mode_enable,
    {
        self.gpo_manual_mode_enable
    }

    /// Sets the `gpo_manual_mode_enable` parameter, and returns the parameters for chaining.
    pub fn set_gpo_manual_mode_enable(&mut self, val: u8) -> (r: &mut Self)
        ensures
            *r == (Ad9361InitParam { gpo_manual_mode_enable: val, ..*old(self) }),
            *final(self) == *final(r),
    {
        self.gpo_manual_mode_enable = val;
        self
    }

    /// The `gpo_manual_mode_enable_mask` parameter.
    pub fn gpo_manual_mode_enable_mask(&self) -> (r: u32)
        ensures
            r == self.gpo_manual_mode_enable_mask,
    {
        self.gpo_manual_mode_enable_mask
    }

    /// Sets the `gpo_manual_mode_enable_mask` parameter, and returns the parameters for chaining.
    pub fn set_gpo_manual_mode_enable_mask(&mut self, val: u32) -> (r: &mut Self)
        ensures
            *r == (Ad9361InitParam { gpo_manual_mode_enable_mask: val, ..*old(self) }),
            *final(self) == *final(r),
    {
        self.gpo_manual_mode_enable_mask = val;
        self
    }

    /// The `gpo0_inactive_state_high_enable` parameter.
    pub fn gpo0_inactive_state_high_enable(&self) -> (r: u8)
        ensures
            r == self.gpo0_inactive_state_high_enable,
    {
        self.gpo0_inactive_state_high_enable
    }

    /// Sets the `gpo0_inactive_state_high_enable` parameter, and returns the parameters for chaining.
    pub fn set_gpo0_inactive_state_high_enable(&mut self, val: u8) -> (r: &mut Self)
        ensures
            *r == (Ad9361InitParam { gpo0_inactive_state_high_enable: val, ..*old(self) }),
            *final(self) == *final(r),
    {
        self.gpo0_inactive_state_high_enable = val;
        self
    }

    /// The `gpo1_inactive_state_high_enable` parameter.
    pub fn gpo1_inactive_state_high_enable(&self) -> (r: u8)
        ensures
            r == self.gpo1_inactive_state_high_enable,
    {
        self.gpo1_inactive_state_high_enable
    }

    /// Sets the `gpo1_inactive_state_high_enable` parameter, and returns the parameters for chaining.
    pub fn set_gpo1_inactive_state_high_enable(&mut self, val: u8) -> (r: &mut Self)
        ensures
            *r == (Ad9361InitParam { gpo1_inactive_state_high_enable: val, ..*old(self) }),
            *final(self) == *final(r),
    {
        self.gpo1_inactive_state_high_enable = val;
        self
    }

    /// The `gpo2_inactive_state_high_enable` parameter.
    pub fn gpo2_inactive_state_high_enable(&self) -> (r: u8)
        ensures
            r == self.gpo2_inactive_state_high_enable,
    {
        self.gpo2_inactive_state_high_enable
    }

    /// Sets the `gpo2_inactive_state_high_enable` parameter, and returns the parameters for chaining.
    pub fn set_gpo2_inactive_state_high_enable(&mut self, val: u8) -> (r: &mut Self)
        ensures
            *r == (Ad9361InitParam { gpo2_inactive_state_high_enable: val, ..*old(self) }),
            *final(self) == *final(r),
    {
        self.gpo2_inactive_state_high_enable = val;
        self
    }

    /// The `gpo3_inactive_state_high_enable` parameter.
    pub fn gpo3_inactive_state_high_enable(&self) -> (r: u8)
        ensures
            r == self.gpo3_inactive_state_high_enable,
    {
        self.gpo3_inactive_state_high_enable
    }

    /// Sets the `gpo3_inactive_state_high_enable` parameter, and returns the parameters for chaining.
    pub fn set_gpo3_inactive_state_high_enable(&mut self, val: u8) -> (r: &mut Self)
        ensures
            *r == (Ad9361InitParam { gpo3_inactive_state_high_enable: val, ..*old(self) }),
            *final(self) == *final(r),
    {
        self.gpo3_inactive_state_high_enable = val;
        self
    }

    /// The `gpo0_slave_rx_enable` parameter.
    pub fn gpo0_slave_rx_enable(&self) -> (r: u8)
        ensures
            r == self.gpo0_slave_rx_enable,
    {
        self.gpo0_slave_rx_enable
    }

    /// Sets the `gpo0_slave_rx_enable` parameter, and returns the parameters for chaining.
    pub fn set_gpo0_slave_rx_enable(&mut self, val: u8) -> (r: &mut Self)
        ensures
            *r == (Ad9361InitParam { gpo0_slave_rx_enable: val, ..*old(self) }),
            *final(self) == *final(r),
    {
        self.gpo0_slave_rx_enable = val;
        self
    }

    /// The `gpo0_slave_tx_enable` parameter.
    pub fn gpo0_slave_tx_enable(&self) -> (r: u8)
        ensures
            r == self.gpo0_slave_tx_enable,
    {
        self.gpo0_slave_tx_enable
    }

    /// Sets the `gpo0_slave_tx_enable` parameter, and returns the parameters for chaining.
    pub fn set_gpo0_slave_tx_enable(&mut self, val: u8) -> (r: &mut Self)
        ensures
            *r == (Ad9361InitParam { gpo0_slave_tx_enable: val, ..*old(self) }),
            *final(self) == *final(r),
    {
        self.gpo0_slave_tx_enable = val;
        self
    }

    /// The `gpo1_slave_rx_enable` parameter.
    pub fn gpo1_slave_rx_enable(&self) -> (r: u8)
        ensures
            r == self.gpo1_slave_rx_enable,
    {
        self.gpo1_slave_rx_enable
    }

    /// Sets the `gpo1_slave_rx_enable` parameter, and returns the parameters for chaining.
    pub fn set_gpo1_slave_rx_enable(&mut self, val: u8) -> (r: &mut Self)
        ensures
            *r == (Ad9361InitParam { gpo1_slave_rx_enable: val, ..*old(self) }),
            *final(self) == *final(r),
    {
        self.gpo1_slave_rx_enable = val;
        self
    }

    /// The `gpo1_slave_tx_enable` parameter.
    pub fn gpo1_slave_tx_enable(&self) -> (r: u8)
        ensures
            r == self.gpo1_slave_tx_enable,
    {
        self.gpo1_slave_tx_enable
    }

    /// Sets the `gpo1_slave_tx_enable` parameter, and returns the parameters for chaining.
    pub fn set_gpo1_slave_tx_enable(&mut self, val: u8) -> (r: &mut Self)
        ensures
            *r == (Ad9361InitParam { gpo1_slave_tx_enable: val, ..*old(self) }),
            *final(self) == *final(r),
    {
        self.gpo1_slave_tx_enable = val;
        self
    }

    /// The `gpo2_slave_rx_enable` parameter.
    pub fn gpo2_slave_rx_enable(&self) -> (r: u8)
        ensures
            r == self.gpo2_slave_rx_enable,
    {
        self.gpo2_slave_rx_enable
    }

    /// Sets the `gpo2_slave_rx_enable` parameter, and returns the parameters for chaining.
    pub fn set_gpo2_slave_rx_enable(&mut self, val: u8) -> (r: &mut Self)
        ensures
            *r == (Ad9361InitParam { gpo2_slave_rx_enable: val, ..*old(self) }),
            *final(self) == *final(r),
    {
        self.gpo2_slave_rx_enable = val;
        self
    }

    /// The `gpo2_slave_tx_enable` parameter.
    pub fn gpo2_slave_tx_enable(&self) -> (r: u8)
        ensures
            r == self.gpo2_slave_tx_enable,
    {
        self.gpo2_slave_tx_enable
    }

    /// Sets the `gpo2_slave_tx_enable` parameter, and returns the parameters for chaining.
    pub fn set_gpo2_slave_tx_enable(&mut self, val: u8) -> (r: &mut Self)
        ensures
            *r == (Ad9361InitParam { gpo2_slave_tx_enable: val, ..*old(self) }),
            *final(self) == *final(r),
    {
        self.gpo2_slave_tx_enable = val;
        self
    }

    /// The `gpo3_slave_rx_enable` parameter.
    pub fn gpo3_slave_rx_enable(&self) -> (r: u8)
        ensures
            r == self.gpo3_slave_rx_enable,
    {
        self.gpo3_slave_rx_enable
    }

    /// Sets the `gpo3_slave_rx_enable` parameter, and returns the parameters for chaining.
    pub fn set_gpo3_slave_rx_enable(&mut self, val: u8) -> (r: &mut Self)
        ensures
            *r == (Ad9361InitParam { gpo3_slave_rx_enable: val, ..*old(self) }),
            *final(self) == *final(r),
    {
        self.gpo3_slave_rx_enable = val;
        self
    }

    /// The `gpo3_slave_tx_enable` parameter.
    pub fn gpo3_slave_tx_enable(&self) -> (r: u8)
        ensures
            r == self.gpo3_slave_tx_enable,
    {
        self.gpo3_slave_tx_enable
    }

    /// Sets the `gpo3_slave_tx_enable` parameter, and returns the parameters for chaining.
    pub fn set_gpo3_slave_tx_enable(&mut self, val: u8) -> (r: &mut Self)
        ensures
            *r == (Ad9361InitParam { gpo3_slave_tx_enable: val, ..*old(self) }),
            *final(self) == *final(r),
    {
        self.gpo3_slave_tx_enable = val;
        self
    }

    /// The `gpo0_rx_delay_us` parameter.
    pub fn gpo0_rx_delay_us(&self) -> (r: u8)
        ensures
            r == self.gpo0_rx_delay_us,
    {
        self.gpo0_rx_delay_us
    }

    /// Sets the `gpo0_rx_delay_us` parameter, and returns the parameters for chaining.
    pub fn set_gpo0_rx_delay_us(&mut self, val: u8) -> (r: &mut Self)
        ensures
            *r == (Ad9361InitParam { gpo0_rx_delay_us: val, ..*old(self) }),
            *final(self) == *final(r),
    {
        self.gpo0_rx_delay_us = val;
        self
    }

    /// The `gpo0_tx_delay_us` parameter.
    pub fn gpo0_tx_delay_us(&self) -> (r: u8)
        ensures
            r == self.gpo0_tx_delay_us,
    {
        self.gpo0_tx_delay_us
    }

    /// Sets the `gpo0_tx_delay_us` parameter, and returns the parameters for chaining.
    pub fn set_gpo0_tx_delay_us(&mut self, val: u8) -> (r: &mut Self)
        ensures
            *r == (Ad9361InitParam { gpo0_tx_delay_us: val, ..*old(self) }),
            *final(self) == *final(r),
    {
        self.gpo0_tx_delay_us = val;
        self
    }

    /// The `gpo1_rx_delay_us` parameter.
    pub fn gpo1_rx_delay_us(&self) -> (r: u8)
        ensures
            r == self.gpo1_rx_delay_us,
    {
        self.gpo1_rx_delay_us
    }

    /// Sets the `gpo1_rx_delay_us` parameter, and returns the parameters for chaining.
    pub fn set_gpo1_rx_delay_us(&mut self, val: u8) -> (r: &mut Self)
        ensures
            *r == (Ad9361InitParam { gpo1_rx_delay_us: val, ..*old(self) }),
            *final(self) == *final(r),
    {
        self.gpo1_rx_delay_us = val;
        self
    }

    /// The `gpo1_tx_delay_us` parameter.
    pub fn gpo1_tx_delay_us(&self) -> (r: u8)
        ensures
            r == self.gpo1_tx_delay_us,
    {
        self.gpo1_tx_delay_us
    }

    /// Sets the `gpo1_tx_delay_us` parameter, and returns the parameters for chaining.
    pub fn set_gpo1_tx_delay_us(&mut self, val: u8) -> (r: &mut Self)
        ensures
            *r == (Ad9361InitParam { gpo1_tx_delay_us: val, ..*old(self) }),
            *final(self) == *final(r),
    {
        self.gpo1_tx_delay_us = val;
        self
    }

    /// The `gpo2_rx_delay_us` parameter.
    pub fn gpo2_rx_delay_us(&self) -> (r: u8)
        ensures
            r == self.gpo2_rx_delay_us,
    {
        self.gpo2_rx_delay_us
    }

    /// Sets the `gpo2_rx_delay_us` parameter, and returns the parameters for chaining.
    pub fn set_gpo2_rx_delay_us(&mut self, val: u8) -> (r: &mut Self)
        ensures
            *r == (Ad9361InitParam { gpo2_rx_delay_us: val, ..*old(self) }),
            *final(self) == *final(r),
    {
        self.gpo2_rx_delay_us = val;
        self
    }

    /// The `gpo2_tx_delay_us` parameter.
    pub fn gpo2_tx_delay_us(&self) -> (r: u8)
        ensures
            r == self.gpo2_tx_delay_us,
    {
        self.gpo2_tx_delay_us
    }

    /// Sets the `gpo2_tx_delay_us` parameter, and returns the parameters for chaining.
    pub fn set_gpo2_tx_delay_us(&mut self, val: u8) -> (r: &mut Self)
        ensures
            *r == (Ad9361InitParam { gpo2_tx_delay_us: val, ..*old(self) }),
            *final(self) == *final(r),
    {
        self.gpo2_tx_delay_us = val;
        self
    }

    /// The `gpo3_rx_delay_us` parameter.
    pub fn gpo3_rx_delay_us(&self) -> (r: u8)
        ensures
            r == self.gpo3_rx_delay_us,
    {
        self.gpo3_rx_delay_us
    }

    /// Sets the `gpo3_rx_delay_us` parameter, and returns the parameters for chaining.
    pub fn set_gpo3_rx_delay_us(&mut self, val: u8) -> (r: &mut Self)
        ensures
            *r == (Ad9361InitParam { gpo3_rx_delay_us: val, ..*old(self) }),
            *final(self) == *final(r),
    {
        self.gpo3_rx_delay_us = val;
        self
    }

    /// The `gpo3_tx_delay_us` parameter.
    pub fn gpo3_tx_delay_us(&self) -> (r: u8)
        ensures
            r == self.gpo3_tx_delay_us,
    {
        self.gpo3_tx_delay_us
    }

    /// Sets the `gpo3_tx_delay_us` parameter, and returns the parameters for chaining.
    pub fn set_gpo3_tx_delay_us(&mut self, val: u8) -> (r: &mut Self)
        ensures
            *r == (Ad9361InitParam { gpo3_tx_delay_us: val, ..*old(self) }),
            *final(self) == *final(r),
    {
        self.gpo3_tx_delay_us = val;
        self
    }
}

/// Tx Monitor Control.
impl Ad9361InitParam {
    /// The `low_high_gain_threshold_mdB` parameter.
    pub fn low_high_gain_threshold_md_b(&self) -> (r: u32)
        ensures
            r == self.low_high_gain_threshold_md_b,
    {
        self.low_high_gain_threshold_md_b
    }

    /// Sets the `low_high_gain_threshold_mdB` parameter, and returns the parameters for chaining.
    pub fn set_low_high_gain_threshold_md_b(&mut self, val: u32) -> (r: &mut Self)
        ensures
            *r == (Ad9361InitParam { low_high_gain_threshold_md_b: val, ..*old(self) }),
            *final(self) == *final(r),
    {
        self.low_high_gain_threshold_md_b = val;
        self
    }

    /// The `low_gain_dB` parameter.
    pub fn low_gain_d_b(&self) -> (r: u32)
        ensures
            r == self.low_gain_d_b,
    {
        self.low_gain_d_b
    }

    /// Sets the `low_gain_dB` parameter, and returns the parameters for chaining.
    pub fn set_low_gain_d_b(&mut self, val: u32) -> (r: &mut Self)
        ensures
            *r == (Ad9361InitParam { low_gain_d_b: val, ..*old(self) }),
            *final(self) == *final(r),
    {
        self.low_gain_d_b = val;
        self
    }

    /// The `high_gain_dB` parameter.
    pub fn high_gain_d_b(&self) -> (r: u32)
        ensures
            r == self.high_gain_d_b,
    {
        self.high_gain_d_b
    }

    /// Sets the `high_gain_dB` parameter, and returns the parameters for chaining.
    pub fn set_high_gain_d_b(&mut self, val: u32) -> (r: &mut Self)
        ensures
            *r == (Ad9361InitParam { high_gain_d_b: val, ..*old(self) }),
            *final(self) == *final(r),
    {
        self.high_gain_d_b = val;
        self
    }

    /// The `tx_mon_track_en` parameter.
    pub fn tx_mon_track_en(&self) -> (r: u8)
        ensures
            r == self.tx_mon_track_en,
    {
        self.tx_mon_track_en
    }

    /// Sets the `tx_mon_track_en` parameter, and returns the parameters for chaining.
    pub fn set_tx_mon_track_en(&mut self, val: u8) -> (r: &mut Self)
        ensures
            *r == (Ad9361InitParam { tx_mon_track_en: val, ..*old(self) }),
            *final(self) == *final(r),
    {
        self.tx_mon_track_en = val;
        self
    }

    /// The `one_shot_mode_en` parameter.
    pub fn one_shot_mode_en(&self) -> (r: u8)
        ensures
            r == self.one_shot_mode_en,
    {
        self.one_shot_mode_en
    }

    /// Sets the `one_shot_mode_en` parameter, and returns the parameters for chaining.
    pub fn set_one_shot_mode_en(&mut self, val: u8) -> (r: &mut Self)
        ensures
            *r == (Ad9361InitParam { one_shot_mode_en: val, ..*old(self) }),
            *final(self) == *final(r),
    {
        self.one_shot_mode_en = val;
        self
    }

    /// The `tx_mon_delay` parameter.
    pub fn tx_mon_delay(&self) -> (r: u32)
        ensures
            r == self.tx_mon_delay,
    {
        self.tx_mon_delay
    }

    /// Sets the `tx_mon_delay` parameter, and returns the parameters for chaining.
    pub fn set_tx_mon_delay(&mut self, val: u32) -> (r: &mut Self)
        ensures
            *r == (Ad9361InitParam { tx_mon_delay: val, ..*old(self) }),
            *final(self) == *final(r),
    {
        self.tx_mon_delay = val;
        self
    }

    /// The `tx_mon_duration` parameter.
    pub fn tx_mon_duration(&self) -> (r: u32)
        ensures
            r == self.tx_mon_duration,
    {
        self.tx_mon_duration
    }

    /// Sets the `tx_mon_duration` parameter, and returns the parameters for chaining.
    pub fn set_tx_mon_duration(&mut self, val: u32) -> (r: &mut Self)
        ensures
            *r == (Ad9361InitParam { tx_mon_duration: val, ..*old(self) }),
            *final(self) == *final(r),
    {
        self.tx_mon_duration = val;
        self
    }

    /// The `tx1_mon_front_end_gain` parameter.
    pub fn tx1_mon_front_end_gain(&self) -> (r: u32)
        ensures
            r == self.tx1_mon_front_end_gain,
    {
        self.tx1_mon_front_end_gain
    }

    /// Sets the `tx1_mon_front_end_gain` parameter, and returns the parameters for chaining.
    pub fn set_tx1_mon_front_end_gain(&mut self, val: u32) -> (r: &mut Self)
        ensures
            *r == (Ad9361InitParam { tx1_mon_front_end_gain: val, ..*old(self) }),
            *final(self) == *final(r),
    {
        self.tx1_mon_front_end_gain = val;
        self
    }

    /// The `tx2_mon_front_end_gain` parameter.
    pub fn tx2_mon_front_end_gain(&self) -> (r: u32)
        ensures
            r == self.tx2_mon_front_end_gain,
    {
        self.tx2_mon_front_end_gain
    }

    /// Sets the `tx2_mon_front_end_gain` parameter, and returns the parameters for chaining.
    pub fn set_tx2_mon_front_end_gain(&mut self, val: u32) -> (r: &mut Self)
        ensures
            *r == (Ad9361InitParam { tx2_mon_front_end_gain: val, ..*old(self) }),
            *final(self) == *final(r),
    {
        self.tx2_mon_front_end_gain = val;
        self
    }

    /// The `tx1_mon_lo_cm` parameter.
    pub fn tx1_mon_lo_cm(&self) -> (r: u32)
        ensures
            r == self.tx1_mon_lo_cm,
    {
        self.tx1_mon_lo_cm
    }

    /// Sets the `tx1_mon_lo_cm` parameter, and returns the parameters for chaining.
    pub fn set_tx1_mon_lo_cm(&mut self, val: u32) -> (r: &mut Self)
        ensures
            *r == (Ad9361InitParam { tx1_mon_lo_cm: val, ..*old(self) }),
            *final(self) == *final(r),
    {
        self.tx1_mon_lo_cm = val;
        self
    }

    /// The `tx2_mon_lo_cm` parameter.
    pub fn tx2_mon_lo_cm(&self) -> (r: u32)
        ensures
            r == self.tx2_mon_lo_cm,
    {
        self.tx2_mon_lo_cm
    }

    /// Sets the `tx2_mon_lo_cm` parameter, and returns the parameters for chaining.
    pub fn set_tx2_mon_lo_cm(&mut self, val: u32) -> (r: &mut Self)
        ensures
            *r == (Ad9361InitParam { tx2_mon_lo_cm: val, ..*old(self) }),
            *final(self) == *final(r),
    {
        self.tx2_mon_lo_cm = val;
        self
    }
}

/// GPIO lines.
impl Ad9361InitParam {
    /// Reset line (active low).
    pub fn gpio_resetb(&self) -> (r: GpioInitParam)
        ensures
            r == self.gpio_resetb,
    {
        self.gpio_resetb
    }

    /// Sets reset line (active low), and returns the parameters for chaining.
    pub fn set_gpio_resetb(&mut self, val: GpioInitParam) -> (r: &mut Self)
        ensures
            *r == (Ad9361InitParam { gpio_resetb: val, ..*old(self) }),
            *final(self) == *final(r),
    {
        self.gpio_resetb = val;
        self
    }

    /// Sync line.
    pub fn gpio_sync(&self) -> (r: GpioInitParam)
        ensures
            r == self.gpio_sync,
    {
        self.gpio_sync
    }

    /// Sets sync line, and returns the parameters for chaining.
    pub fn set_gpio_sync(&mut self, val: GpioInitParam) -> (r: &mut Self)
        ensures
            *r == (Ad9361InitParam { gpio_sync: val, ..*old(self) }),
            *final(self) == *final(r),
    {
        self.gpio_sync = val;
        self
    }

    /// Calibration switch 1 line.
    pub fn gpio_cal_sw1(&self) -> (r: GpioInitParam)
        ensures
            r == self.gpio_cal_sw1,
    {
        self.gpio_cal_sw1
    }

    /// Sets calibration switch 1 line, and returns the parameters for chaining.
    pub fn set_gpio_cal_sw1(&mut self, val: GpioInitParam) -> (r: &mut Self)
        ensures
            *r == (Ad9361InitParam { gpio_cal_sw1: val, ..*old(self) }),
            *final(self) == *final(r),
    {
        self.gpio_cal_sw1 = val;
        self
    }

    /// Calibration switch 2 line.
    pub fn gpio_cal_sw2(&self) -> (r: GpioInitParam)
        ensures
            r == self.gpio_cal_sw2,
    {
        self.gpio_cal_sw2
    }

    /// Sets calibration switch 2 line, and returns the parameters for chaining.
    pub fn set_gpio_cal_sw2(&mut self, val: GpioInitParam) -> (r: &mut Self)
        ensures
            *r == (Ad9361InitParam { gpio_cal_sw2: val, ..*old(self) }),
            *final(self) == *final(r),
    {
        self.gpio_cal_sw2 = val;
        self
    }

    /// Hands the reset line to the driver when the handle has a reset pin;
    /// without one the line stays as configured.
    pub fn bind_reset_line(&mut self, has_reset_pin: bool)
        ensures
            has_reset_pin ==> *final(self) == (Ad9361InitParam {
                gpio_resetb: GpioInitParam { number: GPIO_RESET_LINE },
                ..*old(self)
            }),
            !has_reset_pin ==> *final(self) == *old(self),
    {
        if has_reset_pin {
            self.gpio_resetb = GpioInitParam { number: GPIO_RESET_LINE };
        }
    }
}

} // verus!
