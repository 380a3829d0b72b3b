use deroff::chars::to_chars;
use deroff::output::collapse_newlines;

fn collapse(s: &str) -> String {
    collapse_newlines(&to_chars(s)).into_iter().collect()
}

#[test]
fn long_runs_of_newlines_become_one() {
    assert_eq!(collapse(""), "");
    assert_eq!(collapse("a"), "a");
    assert_eq!(collapse("\n"), "\n");
    assert_eq!(collapse("\n\n"), "\n\n");
    assert_eq!(collapse("\n\n\n"), "\n");
    assert_eq!(collapse("\n\n\n\n\n\n\n"), "\n");
    assert_eq!(collapse("a\nb\n\nc\n\n\nd\n\n\n\ne"), "a\nb\n\nc\nd\ne");
    assert_eq!(collapse("\n\n\na\n\n\n"), "\na\n");
    assert_eq!(collapse("\n\n \n\n"), "\n\n \n\n");
}

#[test]
fn collapsing_twice_is_collapsing_once() {
    let samples = [
        "",
        "\n",
        "\n\n",
        "\n\n\n",
        "\n\n\n\n",
        "a\n\n\n\n\n\nb",
        "a\n\nb\n\n\nc\n\n\n\n",
        "\n\n\n\n\n\n\n\n\n",
        "x\n\n\ny\n\nz\n",
    ];
    for s in samples {
        let once = collapse(s);
        assert_eq!(collapse(&once), once);
    }
}
