use gchimp::i18n::{get_text, Language, TextKey};

#[test]
fn english_is_the_default_language() {
    let lang: Language = Default::default();
    assert_eq!(lang, Language::English);
}

#[test]
fn common_labels_translate_both_ways() {
    assert_eq!(get_text(TextKey::Run, Language::English), "Run");
    assert_eq!(get_text(TextKey::Run, Language::Chinese), "运行");
    assert_eq!(get_text(TextKey::Cancel, Language::English), "Cancel");
    assert_eq!(get_text(TextKey::Cancel, Language::Chinese), "取消");
    assert_eq!(get_text(TextKey::Idle, Language::Chinese), "空闲");
    assert_eq!(get_text(TextKey::Done, Language::English), "Done");
}

#[test]
fn pipeline_labels_are_present() {
    assert_eq!(get_text(TextKey::Decompile, Language::English), "Decompile");
    assert_eq!(
        get_text(TextKey::GoldSrcCompile, Language::Chinese),
        "GoldSrc编译"
    );
    assert_eq!(get_text(TextKey::Force, Language::English), "Force");
    assert_eq!(
        get_text(TextKey::AddSuffixHint, Language::English),
        "Adds suffix \"_goldsrc\" to the name of the converted model"
    );
    assert_eq!(
        get_text(TextKey::IgnoreConverted, Language::Chinese),
        "忽略已转换"
    );
}

#[test]
fn no_key_comes_back_empty() {
    // a spot check across the table's sections
    let keys = [
        TextKey::MenuNew,
        TextKey::DragDropHint,
        TextKey::MapFile,
        TextKey::SMD,
        TextKey::File,
        TextKey::Reset,
        TextKey::ImageExtensions,
        TextKey::OK,
        TextKey::UVClampHint,
        TextKey::CreateLinkedWadHint,
    ];
    for k in keys {
        assert!(!get_text(k, Language::English).is_empty());
        assert!(!get_text(k, Language::Chinese).is_empty());
    }
}
