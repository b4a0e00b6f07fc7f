use cndk8::brain::{SecondBrain, SecondBrainManager, SecondBrainSupportedFormats};
use cndk8::listing::{listing, File};

#[test]
fn it_works() {
    let result = 2 + 2;
    assert_eq!(result, 4);
}

#[test]
fn file_keeps_its_name() {
    let f = File::new("./a.txt".to_string());
    assert_eq!(f.name(), "./a.txt");
}

#[test]
fn listing_prints_one_name_per_line() {
    let files = vec![File::new("./a".to_string()), File::new("./b c".to_string())];
    assert_eq!(listing(&files), "./a\n./b c\n");
    assert_eq!(listing(&vec![]), "");
    let first = vec![File::new("./a".to_string())];
    let second = vec![File::new("./b c".to_string())];
    assert_eq!(listing(&files), listing(&first) + &listing(&second));
}

#[test]
fn brain_types_exist() {
    let _brain = SecondBrain;
    let _manager = SecondBrainManager;
    let _format = SecondBrainSupportedFormats::Markdown;
}
