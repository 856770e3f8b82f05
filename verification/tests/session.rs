use tex2typst_core::error::{ErrorKind, Step};
use tex2typst_core::mapping::StringMap;
use tex2typst_core::options::{tex_options, typst_options, MacroTable, OptionValue, OptionsMapping};
use tex2typst_core::session::ConverterInstance;

/// A small script with the two entry points. Besides a toy conversion it
/// answers a few inputs that begin with `@` with facts about the call.
const SCRIPT: &str = r#"
var calls = 0;

function balanced(input) {
    var depth = 0;
    for (var i = 0; i < input.length; i++) {
        if (input[i] === '{') depth++;
        if (input[i] === '}') depth--;
        if (depth < 0) return false;
    }
    return depth === 0;
}

function probe(input, options, count) {
    if (input === '@arity') return String(count);
    if (input === '@options') return options === undefined ? 'undefined' : JSON.stringify(options);
    if (input === '@calls') return String(calls);
    if (input === '@seen') {
        options.seen = (options.seen || 0) + 1;
        return String(options.seen);
    }
    if (input === '@throw-value') throw 42;
    if (input === '@throw-text') throw 'plain';
    if (input === '@number') return 7;
    return null;
}

function tex2typst(input, options) {
    calls += 1;
    var answer = probe(input, options, arguments.length);
    if (answer !== null) return answer;
    if (!balanced(input)) throw new Error("Unmatched '{' in " + input);
    var slash = options !== undefined && options.fracToSlash === true;
    var macros = options !== undefined && options.customTexMacros || {};
    var text = input;
    for (var name in macros) text = text.split(name).join(macros[name]);
    return text.replace(/\\frac\{([^{}]*)\}\{([^{}]*)\}/g, slash ? '$1/$2' : 'frac($1, $2)');
}

function typst2tex(input, options) {
    calls += 1;
    var answer = probe(input, options, arguments.length);
    if (answer !== null) return answer;
    var text = input.replace(/frac\(([^(),]*), ([^(),]*)\)/g, '\\frac{$1}{$2}');
    if (options !== undefined && options.blockMathMode === true) return '\\[' + text + '\\]';
    return text;
}
"#;

fn s(text: &str) -> String {
    text.to_string()
}

fn session() -> ConverterInstance {
    ConverterInstance::new(SCRIPT).unwrap()
}

fn mapping(entries: Vec<(&str, OptionValue)>) -> OptionsMapping {
    let mut m: OptionsMapping = StringMap::new();
    for (key, value) in entries {
        m.insert(s(key), value);
    }
    m
}

#[test]
fn plain_power_is_kept() {
    let mut c = session();
    assert_eq!(c.tex2typst("x^2", None), Ok(s("x^2")));
    assert_eq!(c.typst2tex("x^2", None), Ok(s("x^2")));
}

#[test]
fn fraction_becomes_slash_form_on_request() {
    let mut c = session();
    let options = tex_options(None, None, None, Some(true), None, None, None);
    assert_eq!(c.tex2typst("\\frac{1}{2}", options.as_ref()), Ok(s("1/2")));
    assert_eq!(c.tex2typst("\\frac{1}{2}", None), Ok(s("frac(1, 2)")));
}

#[test]
fn unterminated_input_fails_with_a_message() {
    let mut c = session();
    let e = c.tex2typst("\\frac{1}{2", None).unwrap_err();
    assert_eq!(e.step, Step::Call);
    assert_eq!(e.kind(), ErrorKind::Conversion);
    assert_eq!(e.subject, None);
    assert!(!e.message.is_empty());
    assert!(e.message.starts_with("Conversion failed: Unmatched '{' in \\frac{1}{2\nStack trace:\n"));
    assert!(e.message.contains("at tex2typst"));
}

#[test]
fn a_failed_call_leaves_the_session_usable() {
    let mut c = session();
    assert!(c.tex2typst("{", None).is_err());
    assert_eq!(c.tex2typst("x^2", None), Ok(s("x^2")));
}

#[test]
fn no_options_means_one_argument() {
    let mut c = session();
    assert_eq!(c.tex2typst("@arity", None), Ok(s("1")));
    assert_eq!(c.tex2typst("@options", None), Ok(s("undefined")));
    assert_eq!(c.typst2tex("@arity", None), Ok(s("1")));
}

#[test]
fn options_mean_two_arguments() {
    let mut c = session();
    let options = typst_options(Some(false));
    assert_eq!(c.typst2tex("@arity", options.as_ref()), Ok(s("2")));
    assert_eq!(c.typst2tex("@options", options.as_ref()), Ok(s("{\"blockMathMode\":false}")));
}

#[test]
fn an_empty_mapping_is_an_empty_object() {
    let mut c = session();
    let empty: OptionsMapping = StringMap::new();
    assert_eq!(c.tex2typst("@arity", Some(&empty)), Ok(s("2")));
    assert_eq!(c.tex2typst("@options", Some(&empty)), Ok(s("{}")));
}

#[test]
fn every_kind_of_value_reaches_the_script() {
    let mut c = session();
    let mut table: MacroTable = StringMap::new();
    table.insert(s("\\R"), s("\\mathbb{R}"));
    table.insert(s("\\N"), s("\\mathbb{N}"));
    let mut list = Vec::new();
    list.push(serde_json::Value::from(1));
    list.push(serde_json::Value::Null);
    let m = mapping(vec![
        ("flag", OptionValue::Bool(true)),
        ("label", OptionValue::Text(s("a \"quoted\" \\ name"))),
        ("table", OptionValue::Table(table)),
        ("count", OptionValue::Other(serde_json::Value::from(3))),
        ("list", OptionValue::Other(serde_json::Value::Array(list))),
    ]);
    assert_eq!(
        c.tex2typst("@options", Some(&m)),
        Ok(s(
            "{\"flag\":true,\"label\":\"a \\\"quoted\\\" \\\\ name\",\"table\":{\"\\\\R\":\"\\\\mathbb{R}\",\"\\\\N\":\"\\\\mathbb{N}\"},\"count\":3,\"list\":[1,null]}"
        ))
    );
}

#[test]
fn direct_and_json_paths_build_equal_objects() {
    let mut c = session();
    let flags = [true, false];
    let texts = ["", "plain", "with \"quotes\" and \\ and \n", "ünïcödé ∑"];
    for a in flags {
        for b in flags {
            for t in texts {
                let direct = mapping(vec![
                    ("nonStrict", OptionValue::Bool(a)),
                    ("optimize", OptionValue::Bool(b)),
                    ("label", OptionValue::Text(s(t))),
                ]);
                let through_json = mapping(vec![
                    ("nonStrict", OptionValue::Other(serde_json::Value::Bool(a))),
                    ("optimize", OptionValue::Other(serde_json::Value::Bool(b))),
                    ("label", OptionValue::Other(serde_json::Value::String(s(t)))),
                ]);
                let left = c.tex2typst("@options", Some(&direct)).unwrap();
                let right = c.tex2typst("@options", Some(&through_json)).unwrap();
                assert_eq!(left, right);
            }
        }
    }
}

#[test]
fn macro_table_is_used_by_the_script() {
    let mut c = session();
    let mut macros: MacroTable = StringMap::new();
    macros.insert(s("\\half"), s("\\frac{1}{2}"));
    let options = tex_options(None, None, None, Some(true), None, None, Some(macros));
    assert_eq!(c.tex2typst("x + \\half", options.as_ref()), Ok(s("x + 1/2")));
}

#[test]
fn block_math_mode_reaches_the_script() {
    let mut c = session();
    let options = typst_options(Some(true));
    assert_eq!(c.typst2tex("frac(1, 2)", options.as_ref()), Ok(s("\\[\\frac{1}{2}\\]")));
    assert_eq!(c.typst2tex("frac(1, 2)", None), Ok(s("\\frac{1}{2}")));
}

#[test]
fn conversion_round_trip_is_stable() {
    let mut c = session();
    for tex in ["x^2", "\\frac{1}{2}", "a + \\frac{b}{c} + d", ""] {
        let typst = c.tex2typst(tex, None).unwrap();
        let back = c.typst2tex(&typst, None).unwrap();
        let again = c.tex2typst(&back, None).unwrap();
        assert_eq!(again, typst);
        assert_eq!(back, tex);
    }
}

#[test]
fn a_thrown_value_that_is_no_error_is_rendered() {
    let mut c = session();
    let e = c.tex2typst("@throw-value", None).unwrap_err();
    assert_eq!(e.step, Step::Call);
    assert_eq!(e.message, "Conversion failed: JavaScript error: Int(42)");
    let e = c.tex2typst("@throw-text", None).unwrap_err();
    assert_eq!(e.message, "Conversion failed: JavaScript error: String(Ok(\"plain\"))");
}

#[test]
fn a_result_that_is_no_string_is_an_engine_fault() {
    let mut c = session();
    let e = c.tex2typst("@number", None).unwrap_err();
    assert_eq!(e.step, Step::Call);
    assert_eq!(
        e.message,
        "Conversion failed: Error converting from js 'int' into type 'string'"
    );
}

#[test]
fn batch_keeps_length_and_order() {
    let mut c = session();
    let inputs = vec![s("x^2"), s("\\frac{1}{2}"), s(""), s("y")];
    let batch = c.tex2typst_batch(&inputs, None).unwrap();
    assert_eq!(batch.len(), inputs.len());
    assert_eq!(batch, vec![s("x^2"), s("frac(1, 2)"), s(""), s("y")]);
    for (i, input) in inputs.iter().enumerate() {
        assert_eq!(batch[i], c.tex2typst(input, None).unwrap());
    }
}

#[test]
fn batch_with_options_agrees_with_single_calls() {
    let mut c = session();
    let options = tex_options(Some(true), None, None, Some(true), None, None, None);
    let inputs = vec![s("\\frac{a}{b}"), s("\\frac{1}{2} + \\frac{3}{4}")];
    let batch = c.tex2typst_batch(&inputs, options.as_ref()).unwrap();
    assert_eq!(batch, vec![s("a/b"), s("1/2 + 3/4")]);
    for (i, input) in inputs.iter().enumerate() {
        assert_eq!(batch[i], c.tex2typst(input, options.as_ref()).unwrap());
    }
}

#[test]
fn batch_of_one_equals_single() {
    let mut c = session();
    for input in ["x^2", "\\frac{1}{2}", "", "@arity", "@options"] {
        let single = c.tex2typst(input, None).unwrap();
        let batch = c.tex2typst_batch(&vec![s(input)], None).unwrap();
        assert_eq!(batch, vec![single]);
        let single = c.typst2tex(input, None).unwrap();
        let batch = c.typst2tex_batch(&vec![s(input)], None).unwrap();
        assert_eq!(batch, vec![single]);
    }
    let single = c.tex2typst("{", None).unwrap_err();
    let batch = c.tex2typst_batch(&vec![s("{")], None).unwrap_err();
    assert_eq!(single.step, batch.step);
    assert_eq!(batch.subject, Some(s("{")));
}

#[test]
fn empty_batch_makes_no_call() {
    let mut c = session();
    let empty: Vec<String> = Vec::new();
    assert_eq!(c.tex2typst_batch(&empty, None), Ok(Vec::new()));
    assert_eq!(c.typst2tex_batch(&empty, None), Ok(Vec::new()));
    assert_eq!(c.tex2typst("@calls", None), Ok(s("1")));
}

#[test]
fn batch_stops_at_the_first_failure() {
    let mut c = session();
    let inputs = vec![s("a"), s("b"), s("c{"), s("d"), s("e{")];
    let e = c.tex2typst_batch(&inputs, None).unwrap_err();
    assert_eq!(e.step, Step::Call);
    assert_eq!(e.kind(), ErrorKind::Conversion);
    assert_eq!(e.subject, Some(s("c{")));
    assert!(e.message.starts_with("Conversion failed for 'c{': Unmatched '{' in c{"));
    assert_eq!(c.tex2typst("@calls", None), Ok(s("4")));
}

#[test]
fn typst_batch_stops_at_the_first_failure() {
    let mut c = session();
    let inputs = vec![s("@throw-value"), s("x")];
    let e = c.typst2tex_batch(&inputs, typst_options(Some(true)).as_ref()).unwrap_err();
    assert_eq!(e.subject, Some(s("@throw-value")));
    assert_eq!(e.message, "Conversion failed for '@throw-value': JavaScript error: Int(42)");
    assert_eq!(c.typst2tex("@calls", None), Ok(s("2")));
}

#[test]
fn batch_shares_one_options_object() {
    let mut c = session();
    let options = mapping(vec![("nonStrict", OptionValue::Bool(true))]);
    let inputs = vec![s("@seen"), s("@seen"), s("@seen")];
    assert_eq!(c.tex2typst_batch(&inputs, Some(&options)), Ok(vec![s("1"), s("2"), s("3")]));
    assert_eq!(c.tex2typst("@seen", Some(&options)), Ok(s("1")));
    assert_eq!(c.tex2typst("@seen", Some(&options)), Ok(s("1")));
}

#[test]
fn convert_calls_the_named_function() {
    let mut c = session();
    assert_eq!(c.convert("typst2tex", "frac(1, 2)", None), Ok(s("\\frac{1}{2}")));
    assert_eq!(c.convert_batch("tex2typst", &vec![s("\\frac{1}{2}")], None), Ok(vec![s("frac(1, 2)")]));
}

#[test]
fn a_missing_function_is_a_binding_failure() {
    let mut c = ConverterInstance::new("function tex2typst(x) { return x; }").unwrap();
    assert_eq!(c.tex2typst("a", None), Ok(s("a")));
    let e = c.typst2tex("a", None).unwrap_err();
    assert_eq!(e.step, Step::FunctionLookup);
    assert_eq!(e.kind(), ErrorKind::Binding);
    assert_eq!(e.subject, Some(s("typst2tex")));
    assert_eq!(e.message, "Global function 'typst2tex' not found.");
    let e = c.typst2tex_batch(&vec![s("a")], None).unwrap_err();
    assert_eq!(e.message, "Global function 'typst2tex' not found.");
    let e = c.typst2tex_batch(&Vec::new(), None).unwrap_err();
    assert_eq!(e.step, Step::FunctionLookup);
}

#[test]
fn a_global_that_is_no_function_is_a_binding_failure() {
    let mut c = ConverterInstance::new("var tex2typst = 3;").unwrap();
    let e = c.tex2typst("a", None).unwrap_err();
    assert_eq!(e.message, "Global function 'tex2typst' not found.");
}

#[test]
fn a_script_that_does_not_parse_fails_to_load() {
    let e = match ConverterInstance::new("function (") {
        Ok(_) => panic!("the script should not load"),
        Err(e) => e,
    };
    assert_eq!(e.step, Step::BundleLoad);
    assert_eq!(e.kind(), ErrorKind::EngineInit);
    assert_eq!(e.subject, None);
    assert_eq!(e.message, "JS Load Error: Exception generated by QuickJS");
}

#[test]
fn a_script_that_throws_fails_to_load() {
    let e = match ConverterInstance::new("throw new Error('broken bundle');") {
        Ok(_) => panic!("the script should not load"),
        Err(e) => e,
    };
    assert_eq!(e.step, Step::BundleLoad);
    assert!(e.message.starts_with("JS Load Error: "));
}

#[test]
fn a_refused_boolean_is_a_translation_failure() {
    let script = "Object.defineProperty(Object.prototype, 'nonStrict', { set: function (v) { throw new Error('refused'); } });\n\
                  function tex2typst(x, o) { return x; }";
    let mut c = ConverterInstance::new(script).unwrap();
    let options = tex_options(Some(true), None, None, None, None, None, None);
    let e = c.tex2typst("a", options.as_ref()).unwrap_err();
    assert_eq!(e.step, Step::SetBool);
    assert_eq!(e.kind(), ErrorKind::Translation);
    assert_eq!(e.subject, Some(s("nonStrict")));
    assert_eq!(e.message, "Failed to set bool property: Exception generated by QuickJS");
    let e = c.tex2typst_batch(&vec![s("a")], options.as_ref()).unwrap_err();
    assert_eq!(e.step, Step::SetBool);
    assert_eq!(c.tex2typst("a", None), Ok(s("a")));
}

#[test]
fn each_refused_value_names_its_step_and_key() {
    let script = "function refuse(name) {\n\
                      Object.defineProperty(Object.prototype, name, { set: function (v) { throw new Error('refused'); } });\n\
                  }\n\
                  refuse('text'); refuse('table'); refuse('inner'); refuse('other');\n\
                  function tex2typst(x, o) { return x; }";
    let mut c = ConverterInstance::new(script).unwrap();

    let m = mapping(vec![("fine", OptionValue::Bool(true)), ("text", OptionValue::Text(s("t")))]);
    let e = c.tex2typst("a", Some(&m)).unwrap_err();
    assert_eq!(e.step, Step::SetString);
    assert_eq!(e.subject, Some(s("text")));
    assert_eq!(e.message, "Failed to set string property: Exception generated by QuickJS");

    let mut plain: MacroTable = StringMap::new();
    plain.insert(s("k"), s("v"));
    let m = mapping(vec![("table", OptionValue::Table(plain))]);
    let e = c.tex2typst("a", Some(&m)).unwrap_err();
    assert_eq!(e.step, Step::SetObject);
    assert_eq!(e.subject, Some(s("table")));
    assert_eq!(e.message, "Failed to set object property: Exception generated by QuickJS");

    let mut nested: MacroTable = StringMap::new();
    nested.insert(s("k"), s("v"));
    nested.insert(s("inner"), s("v"));
    let m = mapping(vec![("macros", OptionValue::Table(nested))]);
    let e = c.tex2typst("a", Some(&m)).unwrap_err();
    assert_eq!(e.step, Step::SetNested);
    assert_eq!(e.subject, Some(s("macros")));
    assert_eq!(e.message, "Failed to set nested property: Exception generated by QuickJS");

    let m = mapping(vec![("other", OptionValue::Other(serde_json::Value::from(1)))]);
    let e = c.tex2typst("a", Some(&m)).unwrap_err();
    assert_eq!(e.step, Step::SetProperty);
    assert_eq!(e.subject, Some(s("other")));
    assert_eq!(e.message, "Failed to set property: Exception generated by QuickJS");
}

#[test]
fn sessions_do_not_share_globals() {
    let mut a = session();
    let mut b = session();
    assert_eq!(a.tex2typst("x", None), Ok(s("x")));
    assert_eq!(a.tex2typst("x", None), Ok(s("x")));
    assert_eq!(a.tex2typst("@calls", None), Ok(s("3")));
    assert_eq!(b.tex2typst("@calls", None), Ok(s("1")));
}
