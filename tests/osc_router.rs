use utilscord::router::{CommandRouter, FloatArg, OscMessage, OscType};

fn float_arg(f: f32) -> OscType {
    OscType::Float(FloatArg {
        hundredths: (f * 100.0).round() as i64,
        debug: format!("{:?}", f),
    })
}

fn test_osc(adr: &str, arg: Option<OscType>, expected: &str) {
    let mut t = CommandRouter::default();
    let res = t.osc_message_interaction(OscMessage {
        addr: adr.to_owned(),
        args: if arg.is_some() {
            vec![arg.unwrap()]
        } else {
            vec![]
        },
    });
    assert_eq!(res, Err(expected.to_string()))
}

#[test]
fn no_dmx_connection() {
    test_osc(
        "/OscControl/DMXChan/8",
        Some(OscType::Int(255)),
        "No DMX connection found !",
    );
}

#[test]
fn dmx_addr_overflow() {
    test_osc(
        "/OscControl/DMXChan/513",
        Some(OscType::Int(200)),
        "Invalid channel or value : 513 <= This must be between 1 and 512 Int(200)",
    );
}

#[test]
fn dmx_addr_0() {
    test_osc(
        "/OscControl/DMXChan/0",
        Some(OscType::Int(200)),
        "Invalid channel or value : 0 <= This must be between 1 and 512 Int(200)",
    );
}

#[test]
fn dmx_value_overflow() {
    test_osc(
        "/OscControl/DMXChan/5",
        Some(OscType::Int(256)),
        "256 is not in range 0..=255",
    );
}

#[test]
fn dmx_value_wrong_type() {
    test_osc(
        "/OscControl/DMXChan/5",
        Some(float_arg(10.5)),
        "Float(10.5) is not an Int !",
    );
}

#[test]
fn dmx_osc_path_verification() {
    test_osc(
        "/OscControl/DMX/200",
        Some(OscType::Int(10)),
        "Invalid OSC path : DMX",
    );
}

#[test]
fn no_volume_value() {
    test_osc("/OscControl/Volume", None, "No Volume Value provided");
}

#[test]
fn volume_wrong_type() {
    test_osc(
        "/OscControl/Volume",
        Some(OscType::Int(1)),
        "Int(1), is not a float",
    );
}

#[test]
fn localvolume_no_value() {
    test_osc(
        "/OscControl/LocalVolume/Selected",
        None,
        "Argument Value not provided",
    );
}

#[test]
fn localvolume_missing_index() {
    test_osc(
        "/OscControl/LocalVolume",
        Some(float_arg(10.0)),
        "Missing OSC path index of item, ex : Selected | 1 | 125 <= Sound Index",
    );
}

#[test]
fn localvolume_wrong_type() {
    test_osc(
        "/OscControl/LocalVolume/Selected",
        Some(OscType::String("Test".to_owned())),
        "Argument Value String(\"Test\") is not a Float",
    );
}
