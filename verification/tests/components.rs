//! Per-kind decoder tests over single records.

use psse_raw::components::branch::{parse_lines, Branch};
use psse_raw::components::bus::{parse_buses, Bus};
use psse_raw::components::impedance_correction::{
    parse_impedance_correction_table, ImpedanceCorrectionTable,
};
use psse_raw::components::multisection_line::{parse_multisection_lines, MultiSectionLine};
use psse_raw::components::switched_shunt::{parse_switched_shunts, SwitchedShunt};
use psse_raw::components::transformer::parse_transformers;
use psse_raw::components::two_terminal_dc::{parse_two_terminal_dc_line, TwoTerminalDc};
use psse_raw::components::vsc_dc::{parse_vsc_dc_line, VSCDc};

fn f(s: &str) -> f64 {
    s.parse::<f64>().unwrap()
}

#[test]
fn parse_branch_v35() {
    let branch_str: &'static str = "1111,   2222,'5 ',9.087000E-03,8.765000E-03,   1.22295,'                                        ',   550.00,   890.00,     700.00,     0.00,     0.00,     0.00,     0.00,     0.00,     0.00,     0.00,     0.00,     0.00,   0.00000,   0.00000,   0.00000,   0.00000, 2,3,   5.20000, 863,  1.0000,";
    let lines: Vec<&[u8]> = branch_str.lines().map(|line| line.as_bytes()).collect();
    let binding: Vec<Branch> = parse_lines(&lines, 35);
    let branch: Option<&Branch> = binding.get(0);
    assert_eq!(branch.unwrap().from_bus, 1111);
    assert_eq!(branch.unwrap().to_bus, 2222);
    assert_eq!(branch.unwrap().circuit, "5".to_string());
    assert_eq!(branch.unwrap().status, 2);
    assert_eq!(branch.unwrap().meter_end, 3);
    assert_eq!(f(&branch.unwrap().length), 5.2);
}

#[test]
fn parse_branch_v33() {
    let branch_str: &'static str = " 1111,   2222,'5 ',9.087000E-03,8.765000E-03,   1.22295,   550.00,   890.00,     700.00,   0.00000,   0.00000,   0.00000,   0.00000, 2,3,   5.20000, 863,  1.0000,";
    let lines: Vec<&[u8]> = branch_str.lines().map(|line| line.as_bytes()).collect();
    let binding: Vec<Branch> = parse_lines(&lines, 33);
    let branch: Option<&Branch> = binding.get(0);
    assert_eq!(branch.unwrap().from_bus, 1111);
    assert_eq!(branch.unwrap().to_bus, 2222);
    assert_eq!(branch.unwrap().circuit, "5".to_string());
    assert_eq!(branch.unwrap().status, 2);
    assert_eq!(branch.unwrap().meter_end, 3);
    assert_eq!(f(&branch.unwrap().length), 5.2);
}

#[test]
fn parse_bus_v35() {
    let bus_str: &'static str = "11223, 'TESTBUS',   235.0000,   5, 806, 5560,  890,   1.026054109, 228.564689898,     1.1000,     0.9000,     1.1000,     0.9000";
    let buses: Vec<&[u8]> = bus_str.lines().map(|line| line.as_bytes()).collect();
    let binding: Vec<Bus> = parse_buses(&buses);
    let bus: Option<&Bus> = binding.get(0);
    assert_eq!(bus.unwrap().id, 11223);
    assert_eq!(bus.unwrap().name, "TESTBUS".to_string());
    assert_eq!(f(&bus.unwrap().base_kv), 235.0);
    assert_eq!(bus.unwrap().type_code, 5);
    assert_eq!(f(&bus.unwrap().evhi), 1.1);
    assert_eq!(f(&bus.unwrap().evlo), 0.9);
}

#[test]
fn parse_correction_table_1_line() {
    let correction_table_str: &'static str = " 1,  80.00000,  1.00000,  0.00000,  -36.00000,  0.53800,  0.00000,  -54.40000,  0.49200,  0.00000,  -15.80000,  0.02400,  0.00000,   -20.30000,  0.09400,  0.00000,    0.00000,  0.00000,  0.00000";
    let lines: Vec<&[u8]> = correction_table_str.lines().map(|line| line.as_bytes()).collect();
    let binding: Vec<ImpedanceCorrectionTable> = parse_impedance_correction_table(&lines, 35);
    let correction_table: Option<&ImpedanceCorrectionTable> = binding.get(0);
    assert_eq!(correction_table.unwrap().index, 1);
    assert_eq!(f(&correction_table.unwrap().correction_table_entries.first().unwrap().tap), 80.0);
    assert_eq!(
        f(&correction_table
            .unwrap()
            .correction_table_entries
            .first()
            .unwrap()
            .real_complex_scaling_factor),
        1.0
    );
    assert_eq!(
        f(&correction_table
            .unwrap()
            .correction_table_entries
            .first()
            .unwrap()
            .imag_complex_scaling_factor),
        0.0
    );
    assert_eq!(f(&correction_table.unwrap().correction_table_entries.get(1).unwrap().tap), -36.0);
    assert_eq!(
        f(&correction_table
            .unwrap()
            .correction_table_entries
            .get(1)
            .unwrap()
            .real_complex_scaling_factor),
        0.538
    );
    assert_eq!(
        f(&correction_table
            .unwrap()
            .correction_table_entries
            .get(1)
            .unwrap()
            .imag_complex_scaling_factor),
        0.0
    );
    assert_eq!(f(&correction_table.unwrap().correction_table_entries.last().unwrap().tap), -20.3);
    assert_eq!(
        f(&correction_table
            .unwrap()
            .correction_table_entries
            .last()
            .unwrap()
            .real_complex_scaling_factor),
        0.09400
    );
    assert_eq!(
        f(&correction_table
            .unwrap()
            .correction_table_entries
            .last()
            .unwrap()
            .imag_complex_scaling_factor),
        0.0
    );
}

#[test]
fn parse_correction_table_2_line() {
    let correction_table_str: &'static str = " 1,  80.00000,  1.00000,  0.00000,  -36.00000,  0.53800,  0.00000,  -54.40000,  0.49200,  0.00000,  -15.80000,  0.02400,  0.00000,   -20.30000,  0.09400,  0.00000,    0.00000,  0.11000,  0.00000
       10.30000,  0.02300,  0.00000,   15.40000,  0.01400,  0.00000,   84.40000,  0.29200,  0.00000,   66.00000,  0.46800,  0.00000,   20.00000,  1.00000,  0.00000,    0.00000,  0.00000,  0.00000";
    let lines: Vec<&[u8]> = correction_table_str.lines().map(|line| line.as_bytes()).collect();
    let binding: Vec<ImpedanceCorrectionTable> = parse_impedance_correction_table(&lines, 35);
    let correction_table: Option<&ImpedanceCorrectionTable> = binding.get(0);
    assert_eq!(correction_table.unwrap().index, 1);
    assert_eq!(f(&correction_table.unwrap().correction_table_entries.first().unwrap().tap), 80.0);
    assert_eq!(
        f(&correction_table
            .unwrap()
            .correction_table_entries
            .first()
            .unwrap()
            .real_complex_scaling_factor),
        1.0
    );
    assert_eq!(
        f(&correction_table
            .unwrap()
            .correction_table_entries
            .first()
            .unwrap()
            .imag_complex_scaling_factor),
        0.0
    );
    assert_eq!(f(&correction_table.unwrap().correction_table_entries.get(2).unwrap().tap), -54.4);
    assert_eq!(
        f(&correction_table
            .unwrap()
            .correction_table_entries
            .get(2)
            .unwrap()
            .real_complex_scaling_factor),
        0.492
    );
    assert_eq!(
        f(&correction_table
            .unwrap()
            .correction_table_entries
            .get(2)
            .unwrap()
            .imag_complex_scaling_factor),
        0.0
    );
    assert_eq!(f(&correction_table.unwrap().correction_table_entries.last().unwrap().tap), 20.0);
    assert_eq!(
        f(&correction_table
            .unwrap()
            .correction_table_entries
            .last()
            .unwrap()
            .real_complex_scaling_factor),
        1.0
    );
    assert_eq!(
        f(&correction_table
            .unwrap()
            .correction_table_entries
            .last()
            .unwrap()
            .imag_complex_scaling_factor),
        0.0
    );
}

#[test]
fn parse_correction_table_3_line() {
    let correction_table_str: &'static str = " 1,  80.00000,  1.00000,  0.00000,  -36.00000,  0.53800,  0.00000,  -54.40000,  0.49200,  0.00000,  -15.80000,  0.02400,  0.00000,   -20.30000,  0.09400,  0.00000,    0.00000,  0.11000,  0.00000
        10.30000,  0.02300,  0.00000,   15.40000,  0.01400,  0.00000,   84.40000,  0.29200,  0.00000,   66.00000,  0.46800,  0.00000,   20.00000,  1.00000,  0.00000,    -15.80000,  0.02400,  0.00000
       10.30000,  0.02300,  0.00000,   15.40000,  0.01400,  0.00000,   84.40000,  0.29200,  0.00000,   66.00000,  0.46800,  0.00000,   98.12300,  5.92800,  2.10000,    0.00000,  0.00000,  0.00000";
    let lines: Vec<&[u8]> = correction_table_str.lines().map(|line| line.as_bytes()).collect();
    let binding: Vec<ImpedanceCorrectionTable> = parse_impedance_correction_table(&lines, 35);
    let correction_table: Option<&ImpedanceCorrectionTable> = binding.get(0);
    assert_eq!(correction_table.unwrap().index, 1);
    assert_eq!(f(&correction_table.unwrap().correction_table_entries.first().unwrap().tap), 80.0);
    assert_eq!(
        f(&correction_table
            .unwrap()
            .correction_table_entries
            .first()
            .unwrap()
            .real_complex_scaling_factor),
        1.0
    );
    assert_eq!(
        f(&correction_table
            .unwrap()
            .correction_table_entries
            .first()
            .unwrap()
            .imag_complex_scaling_factor),
        0.0
    );
    assert_eq!(f(&correction_table.unwrap().correction_table_entries.get(3).unwrap().tap), -15.8);
    assert_eq!(
        f(&correction_table
            .unwrap()
            .correction_table_entries
            .get(3)
            .unwrap()
            .real_complex_scaling_factor),
        0.02400
    );
    assert_eq!(
        f(&correction_table
            .unwrap()
            .correction_table_entries
            .get(3)
            .unwrap()
            .imag_complex_scaling_factor),
        0.0
    );
    assert_eq!(f(&correction_table.unwrap().correction_table_entries.last().unwrap().tap), 98.123);
    assert_eq!(
        f(&correction_table
            .unwrap()
            .correction_table_entries
            .last()
            .unwrap()
            .real_complex_scaling_factor),
        5.928
    );
    assert_eq!(
        f(&correction_table
            .unwrap()
            .correction_table_entries
            .last()
            .unwrap()
            .imag_complex_scaling_factor),
        2.1
    );
}

#[test]
fn parse_multiterminal_0_dummies() {
    let multiterminal_str: &'static str = "1997,  1898, '&1', 1,";
    let lines: Vec<&[u8]> = multiterminal_str.lines().map(|line| line.as_bytes()).collect();
    let binding: Vec<MultiSectionLine> = parse_multisection_lines(&lines);
    let multiterminal: Option<&MultiSectionLine> = binding.get(0);
    assert_eq!(multiterminal.unwrap().from_bus, 1997);
    assert_eq!(multiterminal.unwrap().to_bus, 1898);
    assert_eq!(multiterminal.unwrap().circuit, "&1".to_string());
    assert_eq!(multiterminal.unwrap().meter_end, 1);
    assert_eq!(multiterminal.unwrap().dummy_bus_ids, vec![0; 9]);
}

#[test]
fn parse_multiterminal_2_dummies() {
    let multiterminal_str: &'static str = "1997,  1898, '&1', 1, 1111,  2222,";
    let lines: Vec<&[u8]> = multiterminal_str.lines().map(|line| line.as_bytes()).collect();
    let binding: Vec<MultiSectionLine> = parse_multisection_lines(&lines);
    let multiterminal: Option<&MultiSectionLine> = binding.get(0);
    assert_eq!(multiterminal.unwrap().from_bus, 1997);
    assert_eq!(multiterminal.unwrap().to_bus, 1898);
    assert_eq!(multiterminal.unwrap().circuit, "&1".to_string());
    assert_eq!(multiterminal.unwrap().meter_end, 1);
    assert_eq!(multiterminal.unwrap().dummy_bus_ids, vec![1111, 2222, 0, 0, 0, 0, 0, 0, 0]);
}

#[test]
fn parse_multiterminal_9_dummies() {
    let multiterminal_str: &'static str =
        "1997,  1898, '&1', 1, 1111,  2222, 3333, 4444, 5555, 66, 7, 88888, 9909";
    let lines: Vec<&[u8]> = multiterminal_str.lines().map(|line| line.as_bytes()).collect();
    let binding: Vec<MultiSectionLine> = parse_multisection_lines(&lines);
    let multiterminal: Option<&MultiSectionLine> = binding.get(0);
    assert_eq!(multiterminal.unwrap().from_bus, 1997);
    assert_eq!(multiterminal.unwrap().to_bus, 1898);
    assert_eq!(multiterminal.unwrap().circuit, "&1".to_string());
    assert_eq!(multiterminal.unwrap().meter_end, 1);
    assert_eq!(
        multiterminal.unwrap().dummy_bus_ids,
        vec![1111, 2222, 3333, 4444, 5555, 66, 7, 88888, 9909]
    );
}

#[test]
fn parse_ss_1_entry_v35() {
    let ss_str: &'static str = "  55555, '8 ',  1,0,1,    1.04000,   1.00000,      1907,   1708,  90.0,'SSTEST       ',  225.000,  0,  4,   75.000,";
    let lines: Vec<&[u8]> = ss_str.lines().map(|line| line.as_bytes()).collect();
    let binding: Vec<SwitchedShunt> = parse_switched_shunts(&lines, 35);
    let switched_shunt: Option<&SwitchedShunt> = binding.get(0);
    assert_eq!(switched_shunt.unwrap().bus_id, 55555);
    assert_eq!(switched_shunt.unwrap().id, "8".to_string());
    assert_eq!(switched_shunt.unwrap().control_mode, 1);
    assert_eq!(switched_shunt.unwrap().adjust_method, 0);
    assert_eq!(switched_shunt.unwrap().status, 1);
    assert_eq!(f(&switched_shunt.unwrap().upper_limit), 1.04);
    assert_eq!(f(&switched_shunt.unwrap().x_lower_limit), 1.0);
    assert_eq!(switched_shunt.unwrap().controlled_bus_id, 1907);
    assert_eq!(switched_shunt.unwrap().controlled_bus_node, 1708);
    assert_eq!(f(&switched_shunt.unwrap().mvar_contribution_perc), 90.0);
    assert_eq!(switched_shunt.unwrap().controlled_bus_name, "SSTEST".to_string());
    assert_eq!(f(&switched_shunt.unwrap().b_init), 225.0);
    assert_eq!(switched_shunt.unwrap().block_status, vec![0, 1, 1, 1, 1, 1, 1, 1]);
    assert_eq!(switched_shunt.unwrap().steps, vec![4, 0, 0, 0, 0, 0, 0, 0]);
    let incs: Vec<f64> = switched_shunt.unwrap().b_increment.iter().map(|x| f(x)).collect();
    assert_eq!(incs, vec![75.0, 0.0, 0.0, 0.0, 0.0, 0.0, 0.0, 0.0]);
}

#[test]
fn parse_ss_7_entry_v35() {
    let ss_str: &'static str = "  55555, '8 ',  1,0,1,    1.04000,   1.00000,      1907,   1708,  90.0,'SSTEST       ',  225.000,  1,  2,   75.000, 2,  3,   80.000, 3,  4,   85.000, 4,  5,   90.000, 5,  6,   95.000, 6,  7,   100.000, 7,  8,   105.000,";
    let lines: Vec<&[u8]> = ss_str.lines().map(|line| line.as_bytes()).collect();
    let binding: Vec<SwitchedShunt> = parse_switched_shunts(&lines, 35);
    let switched_shunt: Option<&SwitchedShunt> = binding.get(0);
    assert_eq!(switched_shunt.unwrap().bus_id, 55555);
    assert_eq!(switched_shunt.unwrap().id, "8".to_string());
    assert_eq!(switched_shunt.unwrap().control_mode, 1);
    assert_eq!(switched_shunt.unwrap().adjust_method, 0);
    assert_eq!(switched_shunt.unwrap().status, 1);
    assert_eq!(f(&switched_shunt.unwrap().upper_limit), 1.04);
    assert_eq!(f(&switched_shunt.unwrap().x_lower_limit), 1.0);
    assert_eq!(switched_shunt.unwrap().controlled_bus_id, 1907);
    assert_eq!(switched_shunt.unwrap().controlled_bus_node, 1708);
    assert_eq!(f(&switched_shunt.unwrap().mvar_contribution_perc), 90.0);
    assert_eq!(switched_shunt.unwrap().controlled_bus_name, "SSTEST".to_string());
    assert_eq!(f(&switched_shunt.unwrap().b_init), 225.0);
    assert_eq!(switched_shunt.unwrap().block_status, vec![1, 2, 3, 4, 5, 6, 7, 1]);
    assert_eq!(switched_shunt.unwrap().steps, vec![2, 3, 4, 5, 6, 7, 8, 0]);
    let incs: Vec<f64> = switched_shunt.unwrap().b_increment.iter().map(|x| f(x)).collect();
    assert_eq!(incs, vec![75.0, 80.0, 85.0, 90.0, 95.0, 100.0, 105.0, 0.0]);
}

#[test]
fn parse_ss_1_entry_v33() {
    let ss_str: &'static str = "  55555,  1,0,1,    1.04000,   1.00000,      1907,  90.0,'SSTEST       ',  225.000,  4,   75.000,";
    let lines: Vec<&[u8]> = ss_str.lines().map(|line| line.as_bytes()).collect();
    let binding: Vec<SwitchedShunt> = parse_switched_shunts(&lines, 33);
    let switched_shunt: Option<&SwitchedShunt> = binding.get(0);
    assert_eq!(switched_shunt.unwrap().bus_id, 55555);
    assert_eq!(switched_shunt.unwrap().id, "1".to_string());
    assert_eq!(switched_shunt.unwrap().control_mode, 1);
    assert_eq!(switched_shunt.unwrap().adjust_method, 0);
    assert_eq!(switched_shunt.unwrap().status, 1);
    assert_eq!(f(&switched_shunt.unwrap().upper_limit), 1.04);
    assert_eq!(f(&switched_shunt.unwrap().x_lower_limit), 1.0);
    assert_eq!(switched_shunt.unwrap().controlled_bus_id, 1907);
    assert_eq!(switched_shunt.unwrap().controlled_bus_node, 0);
    assert_eq!(f(&switched_shunt.unwrap().mvar_contribution_perc), 90.0);
    assert_eq!(switched_shunt.unwrap().controlled_bus_name, "SSTEST".to_string());
    assert_eq!(f(&switched_shunt.unwrap().b_init), 225.0);
    assert_eq!(switched_shunt.unwrap().block_status, vec![1, 1, 1, 1, 1, 1, 1, 1]);
    assert_eq!(switched_shunt.unwrap().steps, vec![4, 0, 0, 0, 0, 0, 0, 0]);
    let incs: Vec<f64> = switched_shunt.unwrap().b_increment.iter().map(|x| f(x)).collect();
    assert_eq!(incs, vec![75.0, 0.0, 0.0, 0.0, 0.0, 0.0, 0.0, 0.0]);
}

#[test]
fn parse_ss_7_entry_v33() {
    let ss_str: &'static str = "  55555,  1,0,1,    1.04000,   1.00000,      1907,  90.0,'SSTEST       ',  225.000,  2,   75.000,  3,   80.000,  4,   85.000,  5,   90.000,  6,   95.000,  7,   100.000,  8,   105.000,";
    let lines: Vec<&[u8]> = ss_str.lines().map(|line| line.as_bytes()).collect();
    let binding: Vec<SwitchedShunt> = parse_switched_shunts(&lines, 33);
    let switched_shunt: Option<&SwitchedShunt> = binding.get(0);
    assert_eq!(switched_shunt.unwrap().bus_id, 55555);
    assert_eq!(switched_shunt.unwrap().id, "1".to_string());
    assert_eq!(switched_shunt.unwrap().control_mode, 1);
    assert_eq!(switched_shunt.unwrap().adjust_method, 0);
    assert_eq!(switched_shunt.unwrap().status, 1);
    assert_eq!(f(&switched_shunt.unwrap().upper_limit), 1.04);
    assert_eq!(f(&switched_shunt.unwrap().x_lower_limit), 1.0);
    assert_eq!(switched_shunt.unwrap().controlled_bus_id, 1907);
    assert_eq!(switched_shunt.unwrap().controlled_bus_node, 0);
    assert_eq!(f(&switched_shunt.unwrap().mvar_contribution_perc), 90.0);
    assert_eq!(switched_shunt.unwrap().controlled_bus_name, "SSTEST".to_string());
    assert_eq!(f(&switched_shunt.unwrap().b_init), 225.0);
    assert_eq!(switched_shunt.unwrap().block_status, vec![1; 8]);
    assert_eq!(switched_shunt.unwrap().steps, vec![2, 3, 4, 5, 6, 7, 8, 0]);
    let incs: Vec<f64> = switched_shunt.unwrap().b_increment.iter().map(|x| f(x)).collect();
    assert_eq!(incs, vec![75.0, 80.0, 85.0, 90.0, 95.0, 100.0, 105.0, 0.0]);
}

#[test]
fn parse_3_winding_v35() {
    let three_winding_v35_str: &'static str = "1234, 5678, 91011, '2 ', 1, 1, 1, 0.00000E+00, 0.00000E+00, 2, 'TESTXFMR                                ', 1,  190, 1.0000,    0, 1.0000,    0, 1.0000,    0, 1.0000, '                                        '
 1.09000E-03, 5.12700E-02,   100.00, 2.11200E-02, 2.05040E-01,   100.00, 0.89800E-02, 2.03950E-01,   100.00,   1.010001894, 105.342819992,
    0.95967,    0.000,    0.000,   288.00,   288.00,     0.00,     0.00,     0.00,     0.00,     0.00,     0.00,     0.00,     0.00,     0.00,     0.00,  1,        0,   0,    1.10000,    0.90000,    1.10000,    0.90000,   33,    0,    0.00000,    0.00000,      0.000
    1.00000,    0.000,    0.000,   288.00,   288.00,     0.00,     0.00,     0.00,     0.00,     0.00,     0.00,     0.00,     0.00,     0.00,     0.00,  0,        0,   0,    1.10000,    0.90000,    1.10000,    0.90000,   33,    0,    0.00000,    0.00000,      0.000
    1.00000,    0.000,  -30.000,    10.00,    10.00,     0.00,     0.00,     0.00,     0.00,     0.00,     0.00,     0.00,     0.00,     0.00,     0.00,  0,        0,   0,    1.10000,    0.90000,    1.10000,    0.90000,   33,    0,    0.00000,    0.00000,      0.000
4444, 5555, 6908, '1 ', 1, 1, 2, 1.05300E+04, 9.86000E-03, 2, 'NEET12                                  ', 1,  191, 1.0000,    0, 1.0000,    0, 1.0000,    0, 1.0000, '                                        '";
    let lines: Vec<&[u8]> = three_winding_v35_str.lines().map(|line| line.as_bytes()).collect();
    let binding = parse_transformers(&lines, 35);
    let three_winding_v35 = binding.get(0);
    assert_eq!(three_winding_v35.unwrap().from_bus, 1234);
    assert_eq!(three_winding_v35.unwrap().to_bus, 5678);
    assert_eq!(three_winding_v35.unwrap().tertiary_bus, 91011);
    assert_eq!(three_winding_v35.unwrap().circuit, "2".to_string());
    assert_eq!(three_winding_v35.unwrap().control_mode_1, 1);
    assert_eq!(f(&three_winding_v35.unwrap().r12), 0.00109);
    assert_eq!(f(&three_winding_v35.unwrap().r23), 0.02112);
    assert_eq!(f(&three_winding_v35.unwrap().r31), 0.00898);
    assert_eq!(f(&three_winding_v35.unwrap().w1_rate1), 288.0);
    assert_eq!(f(&three_winding_v35.unwrap().w2_rate1), 288.0);
    assert_eq!(f(&three_winding_v35.unwrap().w3_rate1), 10.0);
}

#[test]
fn parse_2_winding_v35() {
    let two_winding_v35_str: &'static str = "1234, 5678,      0, '1 ', 1, 1, 1, 0.00000E+00, 0.00000E+00, 2, 'TESTXFMR                             ', 1,    1, 1.0000,    0, 1.0000,    0, 1.0000,    0, 1.0000, '                                        '
 2.60000E-04, 2.36000E-02,   100.00,
    0.98040,    0.000,    0.000,   420.00,   480.00,   530.00,     0.00,     0.00,     0.00,     0.00,     0.00,     0.00,     0.00,     0.00,     0.00,  1,        0,   0,    1.50000,    0.51000,    1.50000,    0.51000,  159,    0,    0.00000,    0.00000,      0.000
    1.00000,    0.000,";
    let lines: Vec<&[u8]> = two_winding_v35_str.lines().map(|line| line.as_bytes()).collect();
    let binding = parse_transformers(&lines, 35);
    let two_winding_v35 = binding.get(0);
    assert_eq!(two_winding_v35.unwrap().from_bus, 1234);
    assert_eq!(two_winding_v35.unwrap().to_bus, 5678);
    assert_eq!(two_winding_v35.unwrap().tertiary_bus, 0);
    assert_eq!(two_winding_v35.unwrap().circuit, "1".to_string());
    assert_eq!(two_winding_v35.unwrap().control_mode_1, 1);
    assert_eq!(f(&two_winding_v35.unwrap().r12), 0.00026);
    assert_eq!(f(&two_winding_v35.unwrap().r23), 0.0);
    assert_eq!(f(&two_winding_v35.unwrap().r31), 0.0);
    assert_eq!(f(&two_winding_v35.unwrap().w1_rate1), 420.0);
    assert_eq!(f(&two_winding_v35.unwrap().w2_rate1), 0.0);
    assert_eq!(f(&two_winding_v35.unwrap().w3_rate1), 0.0);
}

#[test]
fn parse_3_winding_v33() {
    let three_winding_v33_str: &'static str = "1234, 5678, 91011, '2 ', 1, 1, 1, 0.00000E+00, 0.00000E+00, 2, 'TESTXFMR                                ', 1,  190, 1.0000,    0, 1.0000,    0, 1.0000,    0, 1.0000, '                                        '
 1.09000E-03, 5.12700E-02,   100.00, 2.11200E-02, 2.05040E-01,   100.00, 0.89800E-02, 2.03950E-01,   100.00,   1.010001894, 105.342819992,
    0.95967,    0.000,    0.000,   288.00,   288.00,     0.00,  1,        0,   0,    1.10000,    0.90000,    1.10000,    0.90000,   33,    0,    0.00000,    0.00000,      0.000
    1.00000,    0.000,    0.000,   288.00,   288.00,     0.00,  0,        0,   0,    1.10000,    0.90000,    1.10000,    0.90000,   33,    0,    0.00000,    0.00000,      0.000
    1.00000,    0.000,  -30.000,    10.00,    10.00,     0.00,  0,        0,   0,    1.10000,    0.90000,    1.10000,    0.90000,   33,    0,    0.00000,    0.00000,      0.000
4444, 5555, 6908, '1 ', 1, 1, 2, 1.05300E+04, 9.86000E-03, 2, 'NEET12                                  ', 1,  191, 1.0000,    0, 1.0000,    0, 1.0000,    0, 1.0000, '                                        '";
    let lines: Vec<&[u8]> = three_winding_v33_str.lines().map(|line| line.as_bytes()).collect();
    let binding = parse_transformers(&lines, 33);
    let three_winding_v35 = binding.get(0);
    assert_eq!(three_winding_v35.unwrap().from_bus, 1234);
    assert_eq!(three_winding_v35.unwrap().to_bus, 5678);
    assert_eq!(three_winding_v35.unwrap().tertiary_bus, 91011);
    assert_eq!(three_winding_v35.unwrap().circuit, "2".to_string());
    assert_eq!(three_winding_v35.unwrap().control_mode_1, 1);
    assert_eq!(f(&three_winding_v35.unwrap().r12), 0.00109);
    assert_eq!(f(&three_winding_v35.unwrap().r23), 0.02112);
    assert_eq!(f(&three_winding_v35.unwrap().r31), 0.00898);
    assert_eq!(f(&three_winding_v35.unwrap().w1_rate1), 288.0);
    assert_eq!(f(&three_winding_v35.unwrap().w2_rate1), 288.0);
    assert_eq!(f(&three_winding_v35.unwrap().w3_rate1), 10.0);
}

#[test]
fn parse_2_winding_v33() {
    let two_winding_v33_str: &'static str = "1234, 5678,      0, '1 ', 1, 1, 1, 0.00000E+00, 0.00000E+00, 2, 'TESTXFMR                             ', 1,    1, 1.0000,    0, 1.0000,    0, 1.0000,    0, 1.0000, '                                        '
 2.60000E-04, 2.36000E-02,   100.00,
    0.98040,    0.000,    0.000,   420.00,   480.00,   530.00,  1,        0,   0,    1.50000,    0.51000,    1.50000,    0.51000,  159,    0,    0.00000,    0.00000,      0.000
    1.00000,    0.000,";
    let lines: Vec<&[u8]> = two_winding_v33_str.lines().map(|line| line.as_bytes()).collect();
    let binding = parse_transformers(&lines, 33);
    let two_winding_v35 = binding.get(0);
    assert_eq!(two_winding_v35.unwrap().from_bus, 1234);
    assert_eq!(two_winding_v35.unwrap().to_bus, 5678);
    assert_eq!(two_winding_v35.unwrap().tertiary_bus, 0);
    assert_eq!(two_winding_v35.unwrap().circuit, "1".to_string());
    assert_eq!(two_winding_v35.unwrap().control_mode_1, 1);
    assert_eq!(f(&two_winding_v35.unwrap().r12), 0.00026);
    assert_eq!(f(&two_winding_v35.unwrap().r23), 0.0);
    assert_eq!(f(&two_winding_v35.unwrap().r31), 0.0);
    assert_eq!(f(&two_winding_v35.unwrap().w1_rate1), 420.0);
    assert_eq!(f(&two_winding_v35.unwrap().w2_rate1), 0.0);
    assert_eq!(f(&two_winding_v35.unwrap().w3_rate1), 0.0);
}

#[test]
fn parse_two_terminal_dc_v35() {
    let ttdc_v35_str: &'static str = "\"2           \",0,  25.25000,   656.30,  510.00,    1.00,  25.2500, 0.20000, 'R',    1.00,   30, 2.00000 
715600, 3,  27.500,  22.500,   1.31800,  32.45000,  330.00,  0.84260,  0.85470,  1.30000,  0.80000,  0.02250,      1121,    1,      7777,      8888, '2 ',   1.00000 
715353, 3,  27.000,  27.000,   1.32700,  29.22000,  445.00,  0.57140,  0.86250,  1.31250,  0.81250,  0.02250,      1234,    1,      5555,      9999, '2 ',   1.00000 ";
    let lines: Vec<&[u8]> = ttdc_v35_str.lines().map(|line| line.as_bytes()).collect();
    let binding: Vec<TwoTerminalDc> = parse_two_terminal_dc_line(&lines, 35);
    let ttdc_v35: Option<&TwoTerminalDc> = binding.get(0);
    assert_eq!(ttdc_v35.unwrap().rec_from_bus, 7777);
    assert_eq!(ttdc_v35.unwrap().rec_to_bus, 8888);
    assert_eq!(ttdc_v35.unwrap().inv_from_bus, 5555);
    assert_eq!(ttdc_v35.unwrap().inv_to_bus, 9999);
    assert_eq!(ttdc_v35.unwrap().rec_comm_bus_id, 1121);
    assert_eq!(ttdc_v35.unwrap().inv_comm_bus_id, 1234);
    assert_eq!(f(&ttdc_v35.unwrap().inv_comm_cap_x), 1.0);
    assert_eq!(ttdc_v35.unwrap().power_ctrl_mode, 0);
    assert_eq!(f(&ttdc_v35.unwrap().acceleration_fac), 2.0);
    assert_eq!(ttdc_v35.unwrap().iteration_limit, 30);
}

#[test]
fn parse_two_terminal_dc_v33() {
    let ttdc_v33_str: &'static str = "\"2           \",0,  25.25000,   656.30,  510.00,    1.00,  25.2500, 0.20000, 'R',    1.00,   30, 2.00000 
715600, 3,  27.500,  22.500,   1.31800,  32.45000,  330.00,  0.84260,  0.85470,  1.30000,  0.80000,  0.02250,      1121,      7777,      8888, '2 ',   1.00000 
715353, 3,  27.000,  27.000,   1.32700,  29.22000,  445.00,  0.57140,  0.86250,  1.31250,  0.81250,  0.02250,      1234,      5555,      9999, '2 ',   1.00000 ";
    let lines: Vec<&[u8]> = ttdc_v33_str.lines().map(|line| line.as_bytes()).collect();
    let binding: Vec<TwoTerminalDc> = parse_two_terminal_dc_line(&lines, 33);
    let ttdc_v33: Option<&TwoTerminalDc> = binding.get(0);
    assert_eq!(ttdc_v33.unwrap().rec_from_bus, 7777);
    assert_eq!(ttdc_v33.unwrap().rec_to_bus, 8888);
    assert_eq!(ttdc_v33.unwrap().inv_from_bus, 5555);
    assert_eq!(ttdc_v33.unwrap().inv_to_bus, 9999);
    assert_eq!(ttdc_v33.unwrap().rec_comm_bus_id, 1121);
    assert_eq!(ttdc_v33.unwrap().inv_comm_bus_id, 1234);
    assert_eq!(f(&ttdc_v33.unwrap().inv_comm_cap_x), 1.0);
    assert_eq!(ttdc_v33.unwrap().power_ctrl_mode, 0);
    assert_eq!(f(&ttdc_v33.unwrap().acceleration_fac), 2.0);
    assert_eq!(ttdc_v33.unwrap().iteration_limit, 30);
}

#[test]
fn parse_vsc_dc_v35() {
    let vsdc_v35_str: &'static str = "'TST-VSC     ', 1,     1.5800,  28,  1.0000
99890, 2, 1,      96.00, 1.00000,  1800.000,     3.400,  1110.000,    360.00,   1032.00,0.50000,    -20.00,    -70.00, 128880,   0,  100.0
22050, 1, 1,     590.00, 1.08080,  2200.000,     3.400,  1110.000,    360.00,   1085.00,0.50000,    -11.00,    -70.00, 123636,   2,  90.0";
    let lines: Vec<&[u8]> = vsdc_v35_str.lines().map(|line| line.as_bytes()).collect();
    let binding: Vec<VSCDc> = parse_vsc_dc_line(&lines, 35);
    let vsdc_v35_str: Option<&VSCDc> = binding.get(0);
    assert_eq!(vsdc_v35_str.unwrap().name, "TST-VSC".to_string());
    assert_eq!(vsdc_v35_str.unwrap().converter_1_bus_id, 99890);
    assert_eq!(vsdc_v35_str.unwrap().converter_2_bus_id, 22050);
    assert_eq!(f(&vsdc_v35_str.unwrap().control_bus_percent_mvar_1), 100.0);
    assert_eq!(f(&vsdc_v35_str.unwrap().control_bus_percent_mvar_2), 90.0);
    assert_eq!(vsdc_v35_str.unwrap().converter_1_dc_control, 2);
    assert_eq!(f(&vsdc_v35_str.unwrap().dc_setpoint_2), 590.0);
    assert_eq!(vsdc_v35_str.unwrap().control_node_2, 2);
    assert_eq!(f(&vsdc_v35_str.unwrap().ac_setpoint_1), 1.0);
    assert_eq!(f(&vsdc_v35_str.unwrap().cont_loss_coeff_2), 2200.0);
}

#[test]
fn parse_vsc_dc_v33() {
    let vsdc_v35_str: &'static str = "'TST-VSC     ', 1,     1.5800,  28,  1.0000
99890, 2, 1,      96.00, 1.00000,  1800.000,     3.400,  1110.000,    360.00,   1032.00,0.50000,    -20.00,    -70.00, 128880,  100.0
22050, 1, 1,     590.00, 1.08080,  2200.000,     3.400,  1110.000,    360.00,   1085.00,0.50000,    -11.00,    -70.00, 123636,  90.0";
    let lines: Vec<&[u8]> = vsdc_v35_str.lines().map(|line| line.as_bytes()).collect();
    let binding: Vec<VSCDc> = parse_vsc_dc_line(&lines, 33);
    let vsdc_v35_str: Option<&VSCDc> = binding.get(0);
    assert_eq!(vsdc_v35_str.unwrap().name, "TST-VSC".to_string());
    assert_eq!(vsdc_v35_str.unwrap().converter_1_bus_id, 99890);
    assert_eq!(vsdc_v35_str.unwrap().converter_2_bus_id, 22050);
    assert_eq!(f(&vsdc_v35_str.unwrap().control_bus_percent_mvar_1), 100.0);
    assert_eq!(f(&vsdc_v35_str.unwrap().control_bus_percent_mvar_2), 90.0);
    assert_eq!(vsdc_v35_str.unwrap().converter_1_dc_control, 2);
    assert_eq!(f(&vsdc_v35_str.unwrap().dc_setpoint_2), 590.0);
    assert_eq!(vsdc_v35_str.unwrap().control_node_2, 0);
    assert_eq!(f(&vsdc_v35_str.unwrap().ac_setpoint_1), 1.0);
    assert_eq!(f(&vsdc_v35_str.unwrap().cont_loss_coeff_2), 2200.0);
}
