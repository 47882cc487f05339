//! Tests of the scanner, the assembler, and the engine-wide behaviors:
//! defaulting, skipping, grouping, and section boundaries.

use psse_raw::components::bus::parse_buses;
use psse_raw::components::facts::parse_facts;
use psse_raw::components::fixed_shunt::parse_fixedshunts;
use psse_raw::components::impedance_correction::{
    parse_impedance_correction_table, ImpedanceCorrectionEntry,
};
use psse_raw::components::induction_machine::parse_induction_machines;
use psse_raw::components::interarea_transfer::parse_area_transfers;
use psse_raw::components::load::parse_loads;
use psse_raw::components::multiterminal_dc_line::parse_multiterminal_dc_line;
use psse_raw::components::owner::parse_owners;
use psse_raw::components::system_switching_device::parse_system_switching_device;
use psse_raw::components::transformer::parse_transformers;
use psse_raw::components::two_terminal_dc::parse_two_terminal_dc_line;
use psse_raw::components::zone::parse_zones;
use psse_raw::components::branch::parse_lines;
use psse_raw::pssedata::{parse_case, section_kind, PSSEDatatype};
use psse_raw::CaseRevision;

fn f(s: &str) -> f64 {
    s.parse::<f64>().unwrap()
}

fn byte_lines(s: &str) -> Vec<&[u8]> {
    s.lines().map(|line| line.as_bytes()).collect()
}

#[test]
fn header_scenario_legacy() {
    let raw = "0, 923.45, 33, 0, 3, 45.67\n\
               347,'NODE A', 138.0, 1, 12, 4, 7, 1.02, -10.5, 1.1, 0.9, 1.1, 0.9\n\
               0 /END OF BUS DATA, BEGIN LOAD DATA\n";
    let case = parse_case(raw.as_bytes());
    assert_eq!(case.header.ic, 0);
    assert_eq!(f(&case.header.sbase), 923.45);
    assert_eq!(case.header.revision, 33);
    assert_eq!(case.header.transformer_rating_code, 0);
    assert_eq!(case.header.branch_rating_code, 3);
    assert_eq!(f(&case.header.system_frequency), 45.67);
}

#[test]
fn parse_case_legacy_file() {
    let raw = "0, 923.45, 33, 0, 3, 45.67\n\
347,'NODE A', 138.0, 1, 12, 4, 7, 1.02, -10.5, 1.1, 0.9, 1.1, 0.9\n\
0 /END OF BUS DATA, BEGIN LOAD DATA\n\
347,'1 ',1, 12, 4, 15.00, 7.50, 0.0, 0.0, 0.0, 0.0, 7, 1, 3\n\
0 /END OF LOAD DATA, BEGIN FIXED SHUNT DATA\n\
0 /END OF FIXED SHUNT DATA, BEGIN GENERATOR DATA\n\
24568,'1 ', 5.0, 1.0, 30.0, -30.0, 1.0, 0, 100.0, 0.0, 1.0, 0.0, 0.0, 1.0, 1, 100.0, 10.0, 0.5, 2, 1, 1.0\n\
0 /END OF GENERATOR DATA, BEGIN BRANCH DATA\n\
347, 24568,'1 ', 0.01, 0.05, 0.002, 250.0, 260.0, 270.0, 0.0, 0.0, 0.0, 0.0, 1, 1, 10.0, 2, 1.0\n\
0 /END OF BRANCH DATA, BEGIN TRANSFORMER DATA\n\
101, 102, 0,'T1', 1, 1, 1, 0.0, 0.0, 2,'XFMRA', 1, 1, 1.0, 0, 1.0, 0, 1.0, 0, 1.0,'  '\n\
0.001, 0.05, 100.0\n\
1.0, 0.0, 0.0, 50.0, 60.0, 70.0, 1, 0, 0, 1.1, 0.9, 1.1, 0.9, 33, 0, 0.0, 0.0, 0.0\n\
1.0, 0.0,\n\
0 /END OF TRANSFORMER DATA, BEGIN AREA DATA\n\
2, 1, 100.0, 5.0,'CHANGE1     '\n\
0 /END OF AREA DATA\n\
0 /END OF TWO-TERMINAL DC DATA\n\
0 /END OF VSC DC LINE DATA\n\
0 /END OF IMPEDANCE CORRECTION DATA\n\
0 /END OF MULTI-TERMINAL DC DATA\n\
0 /END OF MULTI-SECTION LINE DATA\n\
2,'TEST123'\n\
0 /END OF ZONE DATA\n\
0 /END OF INTER-AREA TRANSFER DATA\n\
2,'OWNER21'\n\
0 /END OF OWNER DATA\n\
0 /END OF FACTS DEVICE DATA\n";
    let case = parse_case(raw.as_bytes());
    assert_eq!(case.header.revision, 33);
    assert_eq!(case.buses.len(), 1);
    assert_eq!(case.buses[0].id, 347);
    assert_eq!(case.buses[0].name, "NODE A".to_string());
    assert_eq!(f(&case.buses[0].base_kv), 138.0);
    assert_eq!(case.loads.len(), 1);
    assert_eq!(case.loads[0].bus_id, 347);
    assert_eq!(case.loads[0].interruptable, 3);
    assert_eq!(case.fixed_shunts.len(), 0);
    assert_eq!(case.generators.len(), 1);
    assert_eq!(case.generators[0].bus_id, 24568);
    assert_eq!(case.generators[0].base_loaded, 2);
    assert_eq!(case.generators[0].reg_bus_node, 0);
    assert_eq!(f(&case.generators[0].mbase), 100.0);
    assert_eq!(case.branches.len(), 1);
    assert_eq!(case.branches[0].from_bus, 347);
    assert_eq!(f(&case.branches[0].rate2), 260.0);
    assert_eq!(case.branches[0].owner1, 2);
    assert_eq!(case.switching_devices.len(), 0);
    assert_eq!(case.transformers.len(), 1);
    assert_eq!(case.transformers[0].from_bus, 101);
    assert_eq!(case.transformers[0].tertiary_bus, 0);
    assert_eq!(case.transformers[0].control_mode_1, 1);
    assert_eq!(f(&case.transformers[0].w1_rate1), 50.0);
    assert_eq!(case.areas.len(), 1);
    assert_eq!(case.areas[0].area_id, 2);
    assert_eq!(case.areas[0].swing_bus_id, 1);
    assert_eq!(case.areas[0].name, "CHANGE1".to_string());
    assert_eq!(case.two_terminal_dc.len(), 0);
    assert_eq!(case.vsc_dc.len(), 0);
    assert_eq!(case.impedance_correction.len(), 0);
    assert_eq!(case.multi_terminal_line.len(), 0);
    assert_eq!(case.multi_section_line.len(), 0);
    assert_eq!(case.zones.len(), 1);
    assert_eq!(case.zones[0].zone_id, 2);
    assert_eq!(case.zones[0].zone_name, "TEST123".to_string());
    assert_eq!(case.inter_area_transfer.len(), 0);
    assert_eq!(case.owners.len(), 1);
    assert_eq!(case.owners[0].owner_id, 2);
    assert_eq!(case.owners[0].owner_name, "OWNER21".to_string());
    assert_eq!(case.facts.len(), 0);
    assert_eq!(case.switched_shunts.len(), 0);
    assert_eq!(case.induction_machines.len(), 0);
}

#[test]
fn parse_case_modern_file() {
    let raw = "0, 100.00, 35, 0, 0, 60.00\n\
@!comment record\n\
0 /END OF SYSTEM-WIDE DATA, BEGIN BUS DATA\n\
101,'BUS ONE', 345.0, 3, 1, 1, 1, 1.0, 0.0\n\
102,'BUS TWO', 345.0, 1, 1, 1, 1, 1.0, 0.0\n\
0 /END OF BUS DATA, BEGIN LOAD DATA\n\
0 /END OF LOAD DATA, BEGIN FIXED SHUNT DATA\n\
0 /END OF FIXED SHUNT DATA, BEGIN GENERATOR DATA\n\
0 /END OF GENERATOR DATA, BEGIN BRANCH DATA\n\
101, 102,'1 ', 0.01, 0.05, 0.0,'LINE NAME', 100.0, 110.0, 120.0, 0,0,0,0,0,0,0,0,0, 0.0,0.0,0.0,0.0, 1, 2, 3.5, 1, 1.0\n\
0 /END OF BRANCH DATA, BEGIN SWITCHING DEVICE DATA\n\
0 /END OF SWITCHING DEVICE DATA, BEGIN TRANSFORMER DATA\n\
0 /END OF TRANSFORMER DATA, BEGIN AREA DATA\n\
7, 101, 0.0, 10.0,'AREA7'\n\
0 /END OF AREA DATA\n";
    let case = parse_case(raw.as_bytes());
    assert_eq!(case.header.revision, 35);
    assert_eq!(f(&case.header.sbase), 100.0);
    assert_eq!(case.buses.len(), 2);
    assert_eq!(case.buses[0].id, 101);
    assert_eq!(case.buses[1].id, 102);
    assert_eq!(case.buses[0].name, "BUS ONE".to_string());
    assert_eq!(case.loads.len(), 0);
    assert_eq!(case.branches.len(), 1);
    assert_eq!(case.branches[0].name, "LINE NAME".to_string());
    assert_eq!(case.branches[0].status, 1);
    assert_eq!(case.branches[0].meter_end, 2);
    assert_eq!(f(&case.branches[0].length), 3.5);
    assert_eq!(case.switching_devices.len(), 0);
    assert_eq!(case.transformers.len(), 0);
    assert_eq!(case.areas.len(), 1);
    assert_eq!(case.areas[0].area_id, 7);
    assert_eq!(case.areas[0].name, "AREA7".to_string());
}

#[test]
fn empty_sections_give_empty_collections() {
    let none: Vec<&[u8]> = Vec::new();
    assert_eq!(parse_buses(&none).len(), 0);
    assert_eq!(parse_zones(&none).len(), 0);
    assert_eq!(parse_owners(&none).len(), 0);
    assert_eq!(parse_two_terminal_dc_line(&none, 35).len(), 0);
    assert_eq!(parse_transformers(&none, 33).len(), 0);
    assert_eq!(parse_impedance_correction_table(&none, 35).len(), 0);
    assert_eq!(parse_multiterminal_dc_line(&none).len(), 0);
}

#[test]
fn fixed_count_grouping_discards_partial_group() {
    // seven lines chunk into exactly two three-line groups; the leftover
    // line opens no record
    let text = "'A',0, 1.0, 1.0, 1.0, 1.0, 1.0, 0.1,'R', 1.0, 20, 1.0\n\
                1, 2, 1.0, 1.0, 1.0, 1.0, 1.0, 1.0, 1.0, 1.5, 0.51, 0.00625, 1, 3, 4,'1', 0.0\n\
                5, 2, 1.0, 1.0, 1.0, 1.0, 1.0, 1.0, 1.0, 1.5, 0.51, 0.00625, 2, 6, 7,'1', 0.0\n\
                'B',0, 1.0, 1.0, 1.0, 1.0, 1.0, 0.1,'R', 1.0, 20, 1.0\n\
                8, 2, 1.0, 1.0, 1.0, 1.0, 1.0, 1.0, 1.0, 1.5, 0.51, 0.00625, 3, 9, 10,'1', 0.0\n\
                11, 2, 1.0, 1.0, 1.0, 1.0, 1.0, 1.0, 1.0, 1.5, 0.51, 0.00625, 4, 12, 13,'1', 0.0\n\
                'C',0, 1.0, 1.0, 1.0, 1.0, 1.0, 0.1,'R', 1.0, 20, 1.0";
    let lines = byte_lines(text);
    let decoded = parse_two_terminal_dc_line(&lines, 33);
    assert_eq!(decoded.len(), 2);
    assert_eq!(decoded[0].name, "A".to_string());
    assert_eq!(decoded[1].name, "B".to_string());
}

#[test]
fn legacy_and_modern_agree_on_shared_prefix_columns() {
    let line = " 1111,   2222,'5 ',9.087000E-03,8.765000E-03,   1.22295,   550.00,   890.00,     700.00,   0.00000,   0.00000,   0.00000,   0.00000, 2,3,   5.20000, 863,  1.0000,";
    let lines = byte_lines(line);
    let legacy = parse_lines(&lines, 33);
    let modern = parse_lines(&lines, 35);
    assert_eq!(legacy[0].from_bus, modern[0].from_bus);
    assert_eq!(legacy[0].to_bus, modern[0].to_bus);
    assert_eq!(legacy[0].circuit, modern[0].circuit);
    assert_eq!(legacy[0].r, modern[0].r);
    assert_eq!(legacy[0].x, modern[0].x);
    assert_eq!(legacy[0].b, modern[0].b);
}

#[test]
fn two_and_three_winding_groups_interleave() {
    // a four-line two-winding group followed by a five-line three-winding
    // group in the same section
    let text = "101, 102, 0,'T1', 1, 1, 1, 0.0, 0.0, 2,'FIRST', 1, 1, 1.0, 0, 1.0, 0, 1.0, 0, 1.0,' '\n\
                0.001, 0.05, 100.0\n\
                1.0, 0.0, 0.0, 50.0, 60.0, 70.0, 1, 0, 0, 1.1, 0.9, 1.1, 0.9, 33, 0, 0.0, 0.0, 0.0\n\
                1.0, 0.0,\n\
                201, 202, 203,'T2', 1, 1, 1, 0.0, 0.0, 2,'SECOND', 1, 1, 1.0, 0, 1.0, 0, 1.0, 0, 1.0,' '\n\
                0.001, 0.05, 100.0, 0.002, 0.06, 100.0, 0.003, 0.07, 100.0, 1.0, 0.0\n\
                1.0, 0.0, 0.0, 11.0, 12.0, 13.0, 1, 0, 0, 1.1, 0.9, 1.1, 0.9, 33, 0, 0.0, 0.0, 0.0\n\
                1.0, 0.0, 0.0, 21.0, 22.0, 23.0, 0, 0, 0, 1.1, 0.9, 1.1, 0.9, 33, 0, 0.0, 0.0, 0.0\n\
                1.0, 0.0, 0.0, 31.0, 32.0, 33.0, 0, 0, 0, 1.1, 0.9, 1.1, 0.9, 33, 0, 0.0, 0.0, 0.0";
    let lines = byte_lines(text);
    let decoded = parse_transformers(&lines, 33);
    assert_eq!(decoded.len(), 2);
    assert_eq!(decoded[0].name, "FIRST".to_string());
    assert_eq!(decoded[0].tertiary_bus, 0);
    assert_eq!(f(&decoded[0].w1_rate1), 50.0);
    assert_eq!(f(&decoded[0].r23), 0.0);
    assert_eq!(decoded[1].name, "SECOND".to_string());
    assert_eq!(decoded[1].tertiary_bus, 203);
    assert_eq!(f(&decoded[1].w1_rate1), 11.0);
    assert_eq!(f(&decoded[1].w2_rate1), 21.0);
    assert_eq!(f(&decoded[1].w3_rate1), 31.0);
    assert_eq!(f(&decoded[1].r23), 0.002);
}

#[test]
fn malformed_fields_fall_back_to_defaults() {
    // an unparseable id and a junk voltage degrade field by field
    let lines = byte_lines("junk,'N', voltage, 1");
    let buses = parse_buses(&lines);
    assert_eq!(buses.len(), 1);
    assert_eq!(buses[0].id, 0);
    assert_eq!(f(&buses[0].base_kv), 999.99);
    assert_eq!(buses[0].type_code, 1);
    // a short line leaves every absent column at its default
    let lines = byte_lines("5");
    let buses = parse_buses(&lines);
    assert_eq!(buses[0].id, 5);
    assert_eq!(buses[0].name, "".to_string());
    assert_eq!(buses[0].area, 0);
    assert_eq!(f(&buses[0].vm_pu), 0.95);
}

#[test]
fn out_of_range_integer_falls_back() {
    // 300 does not fit the bus type code's width, so the default holds
    let lines = byte_lines("7,'N', 1.0, 300");
    let buses = parse_buses(&lines);
    assert_eq!(buses[0].type_code, 1);
}

#[test]
fn undecodable_line_is_skipped() {
    let good_a: &[u8] = b"2,'OWNER21'";
    let bad: &[u8] = &[0xff, 0xfe, b',', b'x'];
    let good_b: &[u8] = b"3,'OWNER22'";
    let lines: Vec<&[u8]> = vec![good_a, bad, good_b];
    let owners = parse_owners(&lines);
    assert_eq!(owners.len(), 2);
    assert_eq!(owners[0].owner_id, 2);
    assert_eq!(owners[1].owner_id, 3);
    assert_eq!(owners[1].owner_name, "OWNER22".to_string());
}

#[test]
fn terminator_entry_is_recognized() {
    let zero = ImpedanceCorrectionEntry {
        tap: "0.00000E+00".to_string(),
        real_complex_scaling_factor: "-0.0".to_string(),
        imag_complex_scaling_factor: "0.0".to_string(),
    };
    assert!(zero.is_end_of_table());
    let nonzero = ImpedanceCorrectionEntry {
        tap: "0.0".to_string(),
        real_complex_scaling_factor: "1.0".to_string(),
        imag_complex_scaling_factor: "0.0".to_string(),
    };
    assert!(!nonzero.is_end_of_table());
}

#[test]
fn legacy_correction_tables_are_one_per_line() {
    let text = " 1,  80.0,  1.0,  0.0,  90.0, 2.0, 0.0\n 2,  70.0,  3.0,  0.0";
    let lines = byte_lines(text);
    let tables = parse_impedance_correction_table(&lines, 33);
    assert_eq!(tables.len(), 2);
    assert_eq!(tables[0].index, 1);
    assert_eq!(tables[0].correction_table_entries.len(), 2);
    assert_eq!(tables[1].index, 2);
    assert_eq!(tables[1].correction_table_entries.len(), 1);
    assert_eq!(f(&tables[1].correction_table_entries[0].tap), 70.0);
}

#[test]
fn section_kind_numbering_shifts_under_modern() {
    assert_eq!(section_kind(1, CaseRevision::Legacy), PSSEDatatype::Bus);
    assert_eq!(section_kind(1, CaseRevision::Modern), PSSEDatatype::Bus);
    assert_eq!(section_kind(6, CaseRevision::Legacy), PSSEDatatype::Transformer);
    assert_eq!(section_kind(6, CaseRevision::Modern), PSSEDatatype::SwitchingDevice);
    assert_eq!(section_kind(7, CaseRevision::Modern), PSSEDatatype::Transformer);
    assert_eq!(section_kind(15, CaseRevision::Legacy), PSSEDatatype::Owner);
    assert_eq!(section_kind(16, CaseRevision::Modern), PSSEDatatype::Owner);
    assert_eq!(section_kind(40, CaseRevision::Legacy), PSSEDatatype::Unknown);
}

#[test]
fn decode_remaining_single_line_kinds() {
    let loads = parse_loads(&byte_lines("9,'L1', 1, 2, 3, 40.0, 20.0"));
    assert_eq!(loads[0].bus_id, 9);
    assert_eq!(f(&loads[0].pl_mw), 40.0);
    let shunts = parse_fixedshunts(&byte_lines("9,'S1', 0, 1.5, -2.5"));
    assert_eq!(shunts[0].bus_id, 9);
    assert_eq!(shunts[0].status, 0);
    assert_eq!(f(&shunts[0].bl_mvar), -2.5);
    let transfers = parse_area_transfers(&byte_lines("1, 2,'T', 55.5"));
    assert_eq!(transfers[0].from_area, 1);
    assert_eq!(transfers[0].to_area, 2);
    assert_eq!(f(&transfers[0].power_transfer), 55.5);
    let facts = parse_facts(&byte_lines("'DEV1', 4, 5, 1, 10.0, 20.0"), 33);
    assert_eq!(facts[0].deivce_name, "DEV1".to_string());
    assert_eq!(facts[0].from_bus, 4);
    assert_eq!(f(&facts[0].desired_reactive_power), 20.0);
    let devices = parse_system_switching_device(&byte_lines(
        "4, 5,'1 ', 0.002, 0, 0, 10.0, 11.0, 12.0, 0, 0, 0, 0, 0, 0, 0, 0, 0, 1, 1, 2, 3,'BRKR'",
    ));
    assert_eq!(devices[0].from_bus, 4);
    assert_eq!(f(&devices[0].x), 0.002);
    assert_eq!(devices[0].device_type, 3);
    assert_eq!(devices[0].name, "BRKR".to_string());
    let machines = parse_induction_machines(&byte_lines("12,'M1', 1, 2, 3, 4, 5, 6, 1, 2, 150.0"));
    assert_eq!(machines[0].bus_id, 12);
    assert_eq!(machines[0].design_code, 3);
    assert_eq!(f(&machines[0].sbase), 150.0);
    assert_eq!(f(&machines[0].volt_point_2), 1.2);
    assert_eq!(machines[0].torque_params.len(), 4);
}

#[test]
fn decode_multi_terminal_dc_group() {
    let text = "'MTDC1', 3, 2, 1, 0, 901, 500.0, 902\n\
                901, 2, 25.0, 10.0, 0.1, 0.2, 345.0, 1.0, 1.0, 1.5, 0.51, 100.0, 1.0, 0.0, 1\n\
                1, 901, 1, 1,'DCBUS', 1, 0.0, 1";
    let mtdc = parse_multiterminal_dc_line(&byte_lines(text));
    assert_eq!(mtdc.len(), 1);
    assert_eq!(mtdc[0].name, "MTDC1".to_string());
    assert_eq!(mtdc[0].num_converters, 3);
    assert_eq!(f(&mtdc[0].mode_switch_dc_volt), 500.0);
    assert_eq!(mtdc[0].ac_conv_bus_1_id, 901);
    assert_eq!(mtdc[0].dc_bus_name, "DCBUS".to_string());
}

#[test]
fn quoted_tokens_lose_one_quote_layer_and_padding() {
    let owners = parse_owners(&byte_lines("1,  'PADDED NAME   '  "));
    assert_eq!(owners[0].owner_name, "PADDED NAME".to_string());
    let owners = parse_owners(&byte_lines("1, \"DOUBLE\""));
    assert_eq!(owners[0].owner_name, "DOUBLE".to_string());
}
