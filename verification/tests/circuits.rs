use nexus_controller::circuits::{
    board_input_count, init_circuits, init_temp_sources, max_input_channel, pressure_input_boards,
    refrigerant_choices, transducer_command_of, transducer_models, transducer_read_command, DEFAULT_TRANSDUCER_MODEL,
};

#[test]
fn circuits_at_start() {
    let circuits = init_circuits();
    assert_eq!(circuits.len(), 4);
    assert!(circuits[0].enabled);
    assert!(!circuits[1].enabled);
    assert_eq!(circuits[0].circuit_id, 1);
    assert_eq!(circuits[3].circuit_id, 4);
    assert_eq!(circuits[0].suction.input_channel, Some(0));
    assert_eq!(circuits[0].discharge.input_channel, Some(1));
    assert_eq!(circuits[2].suction.input_channel, Some(4));
    assert_eq!(circuits[3].discharge.input_channel, Some(7));
    assert_eq!(circuits[3].liquid.input_channel, None);
    assert!(!circuits[0].suction.enabled);
    assert_eq!(circuits[1].liquid.transducer_model, DEFAULT_TRANSDUCER_MODEL);
    assert_eq!(circuits[1].liquid.transducer_model, "P499VCS-404C");

    let sources = init_temp_sources();
    let names: Vec<&str> = sources.iter().map(|s| s.source.as_str()).collect();
    assert_eq!(names, vec!["suction", "discharge", "liquid", "return_air", "supply_air"]);
    assert!(sources.iter().all(|s| !s.enabled && s.board_id.is_none() && s.input_channel.is_none()));
}

#[test]
fn input_counts_of_the_boards() {
    let boards = pressure_input_boards();
    assert_eq!(board_input_count(&boards, &Some("megabas_0".to_string())), 8);
    assert_eq!(board_input_count(&boards, &Some("16univin_2".to_string())), 16);
    assert_eq!(board_input_count(&boards, &Some("8relay_3".to_string())), 8);
    assert_eq!(board_input_count(&boards, &None), 8);
    assert_eq!(max_input_channel(&boards, &Some("16univin_1".to_string())), 15);
    assert_eq!(max_input_channel(&boards, &None), 7);
    assert_eq!(max_input_channel(&Vec::new(), &None), 7);
}

#[test]
fn transducer_commands() {
    assert_eq!(transducer_read_command("megabas", 0, 0), "megabas 0 ain 1");
    assert_eq!(transducer_read_command("16univin", 2, 15), "16univin 2 in 16");
    assert_eq!(transducer_read_command("8relay", 3, 1), "");
}

#[test]
fn refrigerant_and_model_lists() {
    let r = refrigerant_choices();
    assert_eq!(r.len(), 12);
    assert_eq!(r[0], "R-410A");
    assert_eq!(r[11], "R-1234ze");
    let m = transducer_models();
    assert_eq!(m.len(), 8);
    assert_eq!(m[7], "P499VCS-CFC");
}

#[test]
fn command_of_a_configured_transducer() {
    let boards = pressure_input_boards();
    let mut circuits = init_circuits();
    assert_eq!(transducer_command_of(&boards, &circuits[0].suction), "");
    circuits[0].suction.board_id = Some("megabas_0".to_string());
    assert_eq!(transducer_command_of(&boards, &circuits[0].suction), "megabas 0 ain 1");
    circuits[1].discharge.board_id = Some("16univin_2".to_string());
    assert_eq!(transducer_command_of(&boards, &circuits[1].discharge), "16univin 2 in 4");
    circuits[0].liquid.board_id = Some("megabas_0".to_string());
    assert_eq!(transducer_command_of(&boards, &circuits[0].liquid), "");
    circuits[2].suction.board_id = Some("16uout_2".to_string());
    assert_eq!(transducer_command_of(&boards, &circuits[2].suction), "");
}
