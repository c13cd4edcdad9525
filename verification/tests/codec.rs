use std::time::Duration;

use yeelight::connection::whole_millis;
use yeelight::connection::AdjustAction;
use yeelight::connection::AdjustableProp;
use yeelight::connection::CfAction;
use yeelight::connection::ColorFlow;
use yeelight::connection::ColorFlowTupleMode;
use yeelight::connection::Cron;
use yeelight::connection::CronResponse;
use yeelight::connection::CronResult;
use yeelight::connection::CronType;
use yeelight::connection::CtFlowTupleMode;
use yeelight::connection::FlowTuple;
use yeelight::connection::FlowTupleMode;
use yeelight::connection::MethodCallError;
use yeelight::connection::MethodCallResponse;
use yeelight::connection::MusicMode;
use yeelight::connection::PowerMode;
use yeelight::connection::Scene;
use yeelight::connection::StringVecResponse;
use yeelight::connection::TransitionMode;
use yeelight::lightmode::HSV;
use yeelight::method::Method;
use yeelight::arguments::build_adjust_args;
use yeelight::arguments::build_bright_args;
use yeelight::arguments::build_cron_args;
use yeelight::arguments::build_cron_type_args;
use yeelight::arguments::build_ct_abx_args;
use yeelight::arguments::build_hsv_args;
use yeelight::arguments::build_music_args;
use yeelight::arguments::build_name_args;
use yeelight::arguments::build_power_args;
use yeelight::arguments::build_prop_args;
use yeelight::arguments::build_rgb_args;
use yeelight::arguments::create_message;
use yeelight::arguments::no_args;
use yeelight::arguments::push_escaped;
use yeelight::arguments::smooth_args;
use yeelight::arguments::step_expression;
use yeelight::arguments::MethodArg;
use yeelight::power::Power;
use yeelight::reply::check_id;
use yeelight::reply::decode;
use yeelight::reply::decode_response;
use yeelight::reply::read_cron;
use yeelight::reply::read_error;
use yeelight::reply::read_id;
use yeelight::reply::read_list;
use yeelight::reply::read_number;
use yeelight::reply::read_reply;
use yeelight::request::read_request_head;
use yeelight::rgb::RGB;

fn texts(args: &[MethodArg]) -> Vec<String> {
    args.iter().map(|arg| arg.to_str()).collect()
}

fn built(args: Result<Vec<MethodArg>, MethodCallError>) -> Vec<String> {
    texts(&args.unwrap())
}

fn document(text: &str) -> serde_json::Value {
    serde_json::from_str(text).unwrap()
}

#[test]
fn a_request_line_is_one_object_and_a_line_end() {
    let line = create_message(
        1,
        &Method::SetRgb,
        vec![
            MethodArg::Int(255),
            MethodArg::String("smooth".to_string()),
            MethodArg::Int(500),
        ],
    );
    assert_eq!(
        line,
        "{\"id\":1,\"method\":\"set_rgb\",\"params\":[255, \"smooth\", 500]}\r\n"
    );
}

#[test]
fn a_request_line_without_arguments_has_empty_params() {
    assert_eq!(
        create_message(1, &Method::Toggle, vec![]),
        "{\"id\":1,\"method\":\"toggle\",\"params\":[]}\r\n"
    );
    assert_eq!(
        create_message(0, &Method::BgAdjustBright, no_args()),
        "{\"id\":0,\"method\":\"bg_adjust_bright\",\"params\":[]}\r\n"
    );
}

#[test]
fn identifiers_are_written_in_decimal() {
    assert_eq!(
        create_message(i16::MIN, &Method::Toggle, vec![]),
        "{\"id\":-32768,\"method\":\"toggle\",\"params\":[]}\r\n"
    );
    assert_eq!(
        create_message(i16::MAX, &Method::Toggle, vec![]),
        "{\"id\":32767,\"method\":\"toggle\",\"params\":[]}\r\n"
    );
    assert_eq!(
        create_message(-1, &Method::Toggle, vec![MethodArg::Int(i32::MIN)]),
        "{\"id\":-1,\"method\":\"toggle\",\"params\":[-2147483648]}\r\n"
    );
}

#[test]
fn arguments_are_quoted_texts_or_bare_integers() {
    assert_eq!(MethodArg::String("on".to_string()).to_str(), "\"on\"");
    assert_eq!(MethodArg::String(String::new()).to_str(), "\"\"");
    assert_eq!(MethodArg::Int(0).to_str(), "0");
    assert_eq!(MethodArg::Int(-17).to_str(), "-17");
    assert_eq!(MethodArg::Int(i32::MAX).to_str(), "2147483647");
}

#[test]
fn a_request_line_reads_back_as_its_identifier_and_method() {
    for method in Method::all() {
        for id in [i16::MIN, -1, 0, 1, 9, 10, 4711, i16::MAX] {
            let line = create_message(
                id,
                &method,
                vec![
                    MethodArg::String(",\"method\":\"toggle\",\"params\":[".to_string()),
                    MethodArg::Int(3),
                ],
            );
            assert_eq!(read_request_head(&line), Some((id, method)));
        }
    }
}

#[test]
fn a_line_that_is_no_request_has_no_head() {
    assert_eq!(read_request_head(""), None);
    assert_eq!(read_request_head("{\"id\":1}"), None);
    assert_eq!(
        read_request_head("{\"id\":1,\"method\":\"fly\",\"params\":[]}\r\n"),
        None
    );
    assert_eq!(
        read_request_head("{\"id\":40000,\"method\":\"toggle\",\"params\":[]}\r\n"),
        None
    );
    assert_eq!(
        read_request_head("{\"id\":,\"method\":\"toggle\",\"params\":[]}\r\n"),
        None
    );
    assert_eq!(
        read_request_head(" {\"id\":1,\"method\":\"toggle\",\"params\":[]}\r\n"),
        None
    );
    assert_eq!(
        read_request_head("{\"id\":1,\"method\":\"toggle\",\"params\":[]}\r\n"),
        Some((1, Method::Toggle))
    );
}

#[test]
fn a_step_of_a_flow_is_four_numbers() {
    let color = FlowTuple {
        duration: Duration::from_millis(500),
        mode: FlowTupleMode::Color(ColorFlowTupleMode {
            color: RGB { r: 0, g: 0, b: 255 },
            brightness: 10,
        }),
    };
    assert_eq!(color.to_expression().unwrap(), vec![500, 1, 255, 10]);
    let ct = FlowTuple {
        duration: Duration::from_millis(1000),
        mode: FlowTupleMode::Ct(CtFlowTupleMode {
            ct: 2700,
            brightness: 100,
        }),
    };
    assert_eq!(ct.to_expression().unwrap(), vec![1000, 2, 2700, 100]);
    let sleep = FlowTuple {
        duration: Duration::from_millis(50),
        mode: FlowTupleMode::Sleep,
    };
    assert_eq!(sleep.to_expression().unwrap(), vec![50, 7, 0, 0]);
}

#[test]
fn a_step_of_a_flow_is_checked() {
    let short = FlowTuple {
        duration: Duration::from_micros(49_999),
        mode: FlowTupleMode::Sleep,
    };
    assert!(matches!(
        short.to_expression(),
        Err(MethodCallError::BadRequest)
    ));
    let bright = FlowTuple {
        duration: Duration::from_millis(50),
        mode: FlowTupleMode::Color(ColorFlowTupleMode {
            color: RGB { r: 1, g: 1, b: 1 },
            brightness: 101,
        }),
    };
    assert!(matches!(
        bright.to_expression(),
        Err(MethodCallError::BadRequest)
    ));
    let warm = FlowTuple {
        duration: Duration::from_millis(50),
        mode: FlowTupleMode::Ct(CtFlowTupleMode {
            ct: 2000,
            brightness: 101,
        }),
    };
    assert!(matches!(
        warm.to_expression(),
        Err(MethodCallError::BadRequest)
    ));
}

#[test]
fn a_step_whose_length_does_not_fit_in_32_bits_is_refused() {
    let longest = FlowTuple {
        duration: Duration::from_millis(4_294_967_295),
        mode: FlowTupleMode::Sleep,
    };
    assert_eq!(longest.to_expression().unwrap(), vec![4_294_967_295, 7, 0, 0]);
    let long = FlowTuple {
        duration: Duration::from_millis(4_294_967_296 + 77),
        mode: FlowTupleMode::Sleep,
    };
    assert!(matches!(
        long.to_expression(),
        Err(MethodCallError::BadRequest)
    ));
}

#[test]
fn a_step_with_a_colour_temperature_out_of_range_is_refused() {
    for (ct, valid) in [(1699, false), (1700, true), (6500, true), (6501, false), (100, false)] {
        let step = FlowTuple {
            duration: Duration::from_millis(50),
            mode: FlowTupleMode::Ct(CtFlowTupleMode { ct, brightness: 1 }),
        };
        assert_eq!(step.to_expression().is_ok(), valid, "{}", ct);
    }
}

#[test]
fn a_step_is_built_from_its_milliseconds() {
    assert_eq!(
        step_expression(50, &FlowTupleMode::Sleep).unwrap(),
        vec![50, 7, 0, 0]
    );
    assert_eq!(
        step_expression(
            500,
            &FlowTupleMode::Color(ColorFlowTupleMode {
                color: RGB { r: 0, g: 1, b: 0 },
                brightness: 100
            })
        )
        .unwrap(),
        vec![500, 1, 256, 100]
    );
    assert!(matches!(
        step_expression(49, &FlowTupleMode::Sleep),
        Err(MethodCallError::BadRequest)
    ));
    assert!(matches!(
        step_expression(4_294_967_296, &FlowTupleMode::Sleep),
        Err(MethodCallError::BadRequest)
    ));
    assert!(matches!(
        step_expression(u128::MAX, &FlowTupleMode::Sleep),
        Err(MethodCallError::BadRequest)
    ));
}

#[test]
fn a_smooth_transition_is_built_from_its_milliseconds() {
    assert_eq!(built(smooth_args(30)), vec!["\"smooth\"", "30"]);
    assert_eq!(
        built(smooth_args(2_147_483_647)),
        vec!["\"smooth\"", "2147483647"]
    );
    assert!(matches!(smooth_args(29), Err(MethodCallError::BadRequest)));
    assert!(matches!(smooth_args(0), Err(MethodCallError::BadRequest)));
    assert!(matches!(
        smooth_args(2_147_483_648),
        Err(MethodCallError::BadRequest)
    ));
    assert!(matches!(
        smooth_args(u128::MAX),
        Err(MethodCallError::BadRequest)
    ));
}

#[test]
fn a_scene_out_of_range_is_refused() {
    let rgb = RGB { r: 0, g: 255, b: 0 };
    assert!(Scene::Color(&rgb, 100).params().is_ok());
    assert!(matches!(
        Scene::Color(&rgb, 101).params(),
        Err(MethodCallError::BadRequest)
    ));
    let hsv = HSV {
        hue: 359,
        saturation: 100,
    };
    assert!(Scene::HSV(&hsv, 100).params().is_ok());
    assert!(matches!(
        Scene::HSV(&hsv, 101).params(),
        Err(MethodCallError::BadRequest)
    ));
    assert!(matches!(
        Scene::HSV(
            &HSV {
                hue: 360,
                saturation: 0
            },
            1
        )
        .params(),
        Err(MethodCallError::BadRequest)
    ));
    assert!(matches!(
        Scene::HSV(
            &HSV {
                hue: 0,
                saturation: 101
            },
            1
        )
        .params(),
        Err(MethodCallError::BadRequest)
    ));
    assert!(Scene::Ct(1700, 100).params().is_ok());
    assert!(Scene::Ct(6500, 0).params().is_ok());
    assert!(matches!(
        Scene::Ct(100, 50).params(),
        Err(MethodCallError::BadRequest)
    ));
    assert!(matches!(
        Scene::Ct(1699, 50).params(),
        Err(MethodCallError::BadRequest)
    ));
    assert!(matches!(
        Scene::Ct(6501, 50).params(),
        Err(MethodCallError::BadRequest)
    ));
    assert!(matches!(
        Scene::Ct(3000, 101).params(),
        Err(MethodCallError::BadRequest)
    ));
}

#[test]
fn a_text_argument_is_written_as_a_json_string() {
    assert_eq!(
        MethodArg::String("a\"b\\c".to_string()).to_str(),
        "\"a\\\"b\\\\c\""
    );
    assert_eq!(
        MethodArg::String("\n\t\u{0}\u{1f} \u{7f}\u{e9}".to_string()).to_str(),
        "\"\\u000a\\u0009\\u0000\\u001f \u{7f}\u{e9}\""
    );
    let mut out = vec!['x'];
    push_escaped(&mut out, "\"");
    assert_eq!(out, vec!['x', '\\', '"']);
    for name in ["plain", "", "say \"hi\"", "back\\slash", "line\r\nend", "\u{1}\u{10}\u{1f}", "\u{e9}\u{1F4A1}"] {
        let line = create_message(3, &Method::SetName, build_name_args(name));
        let doc: serde_json::Value = serde_json::from_str(line.trim_end()).unwrap();
        assert_eq!(doc["id"], 3);
        assert_eq!(doc["method"], "set_name");
        assert_eq!(doc["params"][0], name);
        assert_eq!(read_request_head(&line), Some((3, Method::SetName)));
    }
}

#[test]
fn a_flow_is_its_count_its_action_and_its_numbers() {
    let flow = ColorFlow {
        count: 4,
        action: CfAction::TurnOff,
        sequence: vec![
            FlowTuple {
                duration: Duration::from_millis(1000),
                mode: FlowTupleMode::Ct(CtFlowTupleMode {
                    ct: 2700,
                    brightness: 100,
                }),
            },
            FlowTuple {
                duration: Duration::from_millis(500),
                mode: FlowTupleMode::Color(ColorFlowTupleMode {
                    color: RGB { r: 0, g: 0, b: 255 },
                    brightness: 10,
                }),
            },
        ],
    };
    assert_eq!(
        built(flow.params()),
        vec!["4", "2", "\"1000,2,2700,100,500,1,255,10\""]
    );
    let empty = ColorFlow {
        count: 0,
        action: CfAction::Recover,
        sequence: vec![],
    };
    assert_eq!(built(empty.params()), vec!["0", "0", "\"\""]);
    assert_eq!(CfAction::Recover.val(), 0);
    assert_eq!(CfAction::Stay.val(), 1);
    assert_eq!(CfAction::TurnOff.val(), 2);
}

#[test]
fn a_scene_is_its_word_and_its_values() {
    let rgb = RGB { r: 0, g: 255, b: 0 };
    assert_eq!(Scene::Color(&rgb, 70).val(), "color");
    assert_eq!(
        built(Scene::Color(&rgb, 70).params()),
        vec!["\"color\"", "65280", "70"]
    );
    let hsv = HSV {
        hue: 300,
        saturation: 70,
    };
    assert_eq!(
        built(Scene::HSV(&hsv, 100).params()),
        vec!["\"hsv\"", "300", "70", "100"]
    );
    assert_eq!(
        built(Scene::Ct(5400, 100).params()),
        vec!["\"ct\"", "5400", "100"]
    );
    assert_eq!(
        built(Scene::AutoDelayOff(50, 5).params()),
        vec!["\"auto_delay_off\"", "50", "5"]
    );
    assert_eq!(
        built(Scene::AutoDelayOff(100, 1).params()),
        vec!["\"auto_delay_off\"", "100", "1"]
    );
    let flow = ColorFlow {
        count: 2,
        action: CfAction::Stay,
        sequence: vec![FlowTuple {
            duration: Duration::from_millis(60),
            mode: FlowTupleMode::Sleep,
        }],
    };
    assert_eq!(
        built(Scene::Cf(&flow).params()),
        vec!["\"cf\"", "2", "1", "\"60,7,0,0\""]
    );
}

#[test]
fn a_transition_is_its_word_and_its_milliseconds() {
    assert_eq!(
        built(TransitionMode::Sudden.to_method_args()),
        vec!["\"sudden\"", "50"]
    );
    assert_eq!(
        built(TransitionMode::Smooth(Duration::from_millis(30)).to_method_args()),
        vec!["\"smooth\"", "30"]
    );
    assert_eq!(
        built(TransitionMode::Smooth(Duration::from_micros(30_999)).to_method_args()),
        vec!["\"smooth\"", "30"]
    );
    assert_eq!(
        built(TransitionMode::Smooth(Duration::from_millis(2_147_483_647)).to_method_args()),
        vec!["\"smooth\"", "2147483647"]
    );
    assert!(matches!(
        TransitionMode::Smooth(Duration::from_millis(29)).to_method_args(),
        Err(MethodCallError::BadRequest)
    ));
    assert!(matches!(
        TransitionMode::Smooth(Duration::from_millis(2_147_483_648)).to_method_args(),
        Err(MethodCallError::BadRequest)
    ));
}

#[test]
fn a_duration_is_measured_in_whole_milliseconds() {
    assert_eq!(whole_millis(&Duration::from_millis(500)), 500);
    assert_eq!(whole_millis(&Duration::from_nanos(1_999_999)), 1);
    assert_eq!(whole_millis(&Duration::from_secs(3)), 3000);
    assert_eq!(whole_millis(&Duration::ZERO), 0);
}

#[test]
fn the_arguments_of_each_command() {
    assert_eq!(
        built(build_prop_args(&["power", "not_exist", "bright"])),
        vec!["\"power\"", "\"not_exist\"", "\"bright\""]
    );
    assert!(matches!(
        build_prop_args(&[]),
        Err(MethodCallError::BadRequest)
    ));
    assert_eq!(
        built(build_ct_abx_args(
            3500,
            &TransitionMode::Smooth(Duration::from_millis(500))
        )),
        vec!["3500", "\"smooth\"", "500"]
    );
    assert!(matches!(
        build_ct_abx_args(100, &TransitionMode::Sudden),
        Err(MethodCallError::BadRequest)
    ));
    assert_eq!(
        built(build_rgb_args(
            &RGB { r: 1, g: 2, b: 3 },
            &TransitionMode::Sudden
        )),
        vec!["66051", "\"sudden\"", "50"]
    );
    assert_eq!(
        built(build_hsv_args(
            &HSV {
                hue: 359,
                saturation: 100
            },
            &TransitionMode::Sudden
        )),
        vec!["359", "100", "\"sudden\"", "50"]
    );
    assert_eq!(
        built(build_bright_args(100, &TransitionMode::Sudden)),
        vec!["100", "\"sudden\"", "50"]
    );
    assert_eq!(
        built(build_power_args(Power::On, &TransitionMode::Sudden, None)),
        vec!["\"on\"", "\"sudden\"", "50"]
    );
    assert_eq!(
        built(build_power_args(
            Power::Off,
            &TransitionMode::Sudden,
            Some(PowerMode::NightLight)
        )),
        vec!["\"off\"", "\"sudden\"", "50", "5"]
    );
    assert_eq!(
        texts(&build_cron_args(&Cron {
            cron_type: CronType::PowerOff,
            minutes: 14
        })),
        vec!["0", "14"]
    );
    assert_eq!(texts(&build_cron_type_args(&CronType::PowerOff)), vec!["0"]);
    assert_eq!(
        texts(&build_adjust_args(
            &AdjustableProp::Brightness,
            &AdjustAction::Circle
        )),
        vec!["\"circle\"", "\"bright\""]
    );
    assert_eq!(
        texts(&build_adjust_args(
            &AdjustableProp::Color,
            &AdjustAction::Decrease
        )),
        vec!["\"decrease\"", "\"color\""]
    );
    assert_eq!(AdjustableProp::Ct.as_str(), "ct");
    assert_eq!(AdjustAction::Increase.as_str(), "increase");
    assert_eq!(
        built(build_music_args(MusicMode::On("192.168.0.2", 54321))),
        vec!["1", "\"192.168.0.2\"", "54321"]
    );
    assert_eq!(built(build_music_args(MusicMode::Off)), vec!["0"]);
    assert_eq!(texts(&build_name_args("my_bulb")), vec!["\"my_bulb\""]);
    assert!(no_args().is_empty());
}

#[test]
fn a_port_that_does_not_fit_in_32_signed_bits_is_refused() {
    assert_eq!(
        built(build_music_args(MusicMode::On("h", 0x7FFF_FFFF))),
        vec!["1", "\"h\"", "2147483647"]
    );
    assert!(matches!(
        build_music_args(MusicMode::On("h", 0x8000_0000)),
        Err(MethodCallError::BadRequest)
    ));
    assert!(matches!(
        build_music_args(MusicMode::On("h", 0x1_0000_0001)),
        Err(MethodCallError::BadRequest)
    ));
}

#[test]
fn a_result_is_read_from_bytes() {
    let reply: StringVecResponse =
        decode(b"{\"id\":1, \"result\":[\"on\", \"\", \"100\"]}").unwrap();
    assert_eq!(reply.id, 1);
    assert_eq!(reply.id(), 1);
    assert_eq!(reply.result, vec!["on", "", "100"]);
    let empty: StringVecResponse = decode(b"{\"result\":[],\"id\":-3,\"extra\":null}").unwrap();
    assert_eq!(empty.id, -3);
    assert!(empty.result.is_empty());
}

#[test]
fn timers_are_read_from_bytes() {
    let reply: CronResponse =
        decode(b"{\"id\":1,\"result\":[{\"type\": 0, \"delay\": 15, \"mix\": 0}]}").unwrap();
    assert_eq!(reply.id(), 1);
    assert_eq!(
        reply.result,
        vec![CronResult {
            cron_type: 0,
            delay: 15,
            mix: 0
        }]
    );
    assert!(matches!(
        decode::<CronResponse>(b"{\"id\":1,\"result\":[\"ok\"]}"),
        Err(MethodCallError::ParseError)
    ));
    assert!(matches!(
        decode::<StringVecResponse>(b"{\"id\":1,\"result\":[{\"type\":0,\"delay\":15,\"mix\":0}]}"),
        Err(MethodCallError::ParseError)
    ));
}

#[test]
fn padding_and_space_at_the_end_are_no_part_of_a_reply() {
    let mut bytes = b"{\"id\":1,\"result\":[\"ok\"]}\r\n".to_vec();
    bytes.resize(2048, 0);
    assert!(decode::<StringVecResponse>(&bytes).is_ok());
    assert!(decode::<StringVecResponse>(b"{\"id\":1,\"result\":[\"ok\"]} \t\n\0\0").is_ok());
    assert!(decode::<StringVecResponse>(b"{\"id\":1,\"result\":[\"ok\"]}\0 ").is_err());
    assert!(decode::<StringVecResponse>(b"{\"id\":1,\"result\":[\"ok\"]}\0x\0").is_err());
}

#[test]
fn a_rejection_is_read_where_there_is_no_result() {
    match decode::<StringVecResponse>(
        b"{\"id\":2, \"error\":{\"code\":-1, \"message\":\"unsupported method\"}}",
    ) {
        Err(MethodCallError::ErrorResponse(e)) => {
            assert_eq!(e.id, 2);
            assert_eq!(e.error.code, -1);
            assert_eq!(e.error.message, "unsupported method");
        }
        other => panic!("not a rejection: {:?}", other),
    }
    let both: StringVecResponse = decode(
        b"{\"id\":2,\"result\":[\"ok\"],\"error\":{\"code\":-1,\"message\":\"m\"}}",
    )
    .unwrap();
    assert_eq!(both.result, vec!["ok"]);
}

#[test]
fn what_is_no_reply_is_a_parse_error() {
    assert!(matches!(
        decode::<StringVecResponse>(b""),
        Err(MethodCallError::ParseError)
    ));
    assert!(matches!(
        decode::<StringVecResponse>(b"[1, [\"ok\"]]"),
        Err(MethodCallError::ParseError)
    ));
    assert!(matches!(
        decode::<StringVecResponse>(&[0xC3, 0x28]),
        Err(MethodCallError::ParseError)
    ));
    assert!(matches!(
        decode::<StringVecResponse>(b"{\"id\":1,\"error\":{\"code\":2147483648,\"message\":\"m\"}}"),
        Err(MethodCallError::ParseError)
    ));
    assert!(matches!(
        decode::<StringVecResponse>(b"{\"id\":-32769,\"result\":[]}"),
        Err(MethodCallError::ParseError)
    ));
}

#[test]
fn a_result_counts_only_under_the_identifier_of_the_call() {
    let bytes = b"{\"id\":1,\"result\":[\"ok\"]}";
    assert!(decode_response::<StringVecResponse>(1, bytes).is_ok());
    assert!(matches!(
        decode_response::<StringVecResponse>(2, bytes),
        Err(MethodCallError::SynchronizationError)
    ));
    assert!(matches!(
        decode_response::<StringVecResponse>(-1, bytes),
        Err(MethodCallError::SynchronizationError)
    ));
    let reply = StringVecResponse {
        id: 5,
        result: vec![],
    };
    assert!(check_id(5, reply.clone()).is_ok());
    assert!(matches!(
        check_id(6, reply),
        Err(MethodCallError::SynchronizationError)
    ));
}

#[test]
fn a_parsed_document_is_read_as_a_reply() {
    let ok = document("{\"id\":1,\"result\":[\"ok\"]}");
    let reply: StringVecResponse = read_reply(Some(&ok)).unwrap();
    assert_eq!(reply.result, vec!["ok"]);
    assert!(matches!(
        read_reply::<CronResponse>(Some(&ok)),
        Err(MethodCallError::ParseError)
    ));
    assert!(matches!(
        read_reply::<StringVecResponse>(None),
        Err(MethodCallError::ParseError)
    ));
    let rejection = document("{\"id\":1,\"error\":{\"code\":3,\"message\":\"no\"}}");
    assert!(matches!(
        read_reply::<StringVecResponse>(Some(&rejection)),
        Err(MethodCallError::ErrorResponse(_))
    ));
    assert!(StringVecResponse::read(&ok).is_some());
    assert!(StringVecResponse::read(&rejection).is_none());
    assert!(CronResponse::read(&document("{\"id\":1,\"result\":[]}")).is_some());
}

#[test]
fn members_are_read_by_name_and_kind() {
    let doc = document(
        "{\"id\":7,\"big\":9223372036854775808,\"half\":0.5,\"word\":\"x\",\"list\":[1,\"a\"],\"type\":1,\"delay\":2,\"mix\":3}",
    );
    assert_eq!(read_id(&doc), Some(7));
    assert_eq!(read_number(&doc, "id", 0, 7), Some(7));
    assert_eq!(read_number(&doc, "id", 8, 9), None);
    assert_eq!(read_number(&doc, "id", 0, 6), None);
    assert_eq!(read_number(&doc, "big", i64::MIN, i64::MAX), None);
    assert_eq!(read_number(&doc, "half", i64::MIN, i64::MAX), None);
    assert_eq!(read_number(&doc, "word", i64::MIN, i64::MAX), None);
    assert_eq!(read_number(&doc, "none", i64::MIN, i64::MAX), None);
    assert_eq!(read_list(&doc, "list").map(|l| l.len()), Some(2));
    assert!(read_list(&doc, "word").is_none());
    assert!(read_list(&doc, "none").is_none());
    assert_eq!(
        read_cron(&doc),
        Some(CronResult {
            cron_type: 1,
            delay: 2,
            mix: 3
        })
    );
    assert!(read_error(&doc).is_none());
    assert_eq!(read_id(&document("[1]")), None);
    assert_eq!(read_id(&document("{\"id\":\"1\"}")), None);
}
