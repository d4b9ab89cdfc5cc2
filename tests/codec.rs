use csv_migrate::codec::{read_records, write_records};

fn row(fields: &[&str]) -> Vec<String> {
    fields.iter().map(|f| f.to_string()).collect()
}

#[test]
fn reads_records_of_text() {
    let records = read_records("a,b\nc,d").unwrap();
    assert_eq!(records, vec![row(&["a", "b"]), row(&["c", "d"])]);
}

#[test]
fn reads_quoted_fields() {
    let records = read_records("\"a,b\",\"x\ny\",\"q\"\"q\"\n").unwrap();
    assert_eq!(records, vec![row(&["a,b", "x\ny", "q\"q"])]);
}

#[test]
fn writes_records_as_text() {
    let text = write_records(&vec![row(&["a", "b"]), row(&["c"])]);
    assert_eq!(text, "a,b\nc\n");
}

#[test]
fn writes_quotes_where_needed() {
    let text = write_records(&vec![row(&["a,b", "x\ny", "q\"q", "plain"])]);
    assert_eq!(text, "\"a,b\",\"x\ny\",\"q\"\"q\",plain\n");
}

#[test]
fn quoted_fields_round_trip() {
    let records = vec![row(&["id", "note"]), row(&["1", "comma, inside"]), row(&["2", "line\nbreak"])];
    let text = write_records(&records);
    assert_eq!(read_records(&text).unwrap(), records);
}
