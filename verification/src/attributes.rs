use vstd::prelude::*;
use vstd::string::StringExecFns;

verus! {

/// One entry of an asset's attribute list.
#[derive(Clone, Debug, PartialEq, Eq)]
pub struct Attribute {
    pub key: String,
    pub value: String,
}

impl View for Attribute {
    type V = (Seq<char>, Seq<char>);

    open spec fn view(&self) -> (Seq<char>, Seq<char>) {
        (self.key@, self.value@)
    }
}

/// A list of attributes as a sequence of pairs of key and value.
pub open spec fn attribute_views(list: Seq<Attribute>) -> Seq<(Seq<char>, Seq<char>)> {
    list.map_values(|a: Attribute| a@)
}

/// The character for a digit below ten.
pub open spec fn digit(d: nat) -> char {
    if d == 0 {
        '0'
    } else if d == 1 {
        '1'
    } else if d == 2 {
        '2'
    } else if d == 3 {
        '3'
    } else if d == 4 {
        '4'
    } else if d == 5 {
        '5'
    } else if d == 6 {
        '6'
    } else if d == 7 {
        '7'
    } else if d == 8 {
        '8'
    } else {
        '9'
    }
}

/// A number written in base ten, without leading zeros.
pub open spec fn decimal(n: nat) -> Seq<char>
    decreases n,
{
    if n < 10 {
        seq![digit(n)]
    } else {
        decimal(n / 10).push(digit(n % 10))
    }
}

/// The attributes that mark a collection as a college's.
pub open spec fn collection_attributes(college_id: u16) -> Seq<(Seq<char>, Seq<char>)> {
    seq![
        ("Tenant ID"@, decimal(college_id as nat)),
        ("Collection Type"@, "Academic Certificate"@),
    ]
}

/// The attributes of a certificate: five that are always there, and the grade
/// last where one was given.
pub open spec fn certificate_attributes(
    college_id: u16,
    student_name: Seq<char>,
    course_name: Seq<char>,
    completion_date: Seq<char>,
    grade: Option<Seq<char>>,
) -> Seq<(Seq<char>, Seq<char>)> {
    let fixed = seq![
        ("Student Name"@, student_name),
        ("Course"@, course_name),
        ("Completion Date"@, completion_date),
        ("Tenant ID"@, decimal(college_id as nat)),
        ("Certificate Type"@, "Academic Certificate"@),
    ];
    match grade {
        Some(g) => fixed.push(("Grade"@, g)),
        None => fixed,
    }
}

fn digit_text(d: u16) -> (s: &'static str)
    requires
        d < 10,
    ensures
        s@ == seq![digit(d as nat)],
{
    proof {
        reveal_strlit("0");
        reveal_strlit("1");
        reveal_strlit("2");
        reveal_strlit("3");
        reveal_strlit("4");
        reveal_strlit("5");
        reveal_strlit("6");
        reveal_strlit("7");
        reveal_strlit("8");
        reveal_strlit("9");
    }
    let s = if d == 0 {
        "0"
    } else if d == 1 {
        "1"
    } else if d == 2 {
        "2"
    } else if d == 3 {
        "3"
    } else if d == 4 {
        "4"
    } else if d == 5 {
        "5"
    } else if d == 6 {
        "6"
    } else if d == 7 {
        "7"
    } else if d == 8 {
        "8"
    } else {
        "9"
    };
    assert(s@ =~= seq![digit(d as nat)]);
    s
}

/// Writes `n` in base ten.
pub fn decimal_text(n: u16) -> (s: String)
    ensures
        s@ == decimal(n as nat),
    decreases n,
{
    if n < 10 {
        String::from_str(digit_text(n))
    } else {
        let mut s = decimal_text(n / 10);
        s.append(digit_text(n % 10));
        assert(s@ =~= decimal(n as nat / 10).push(digit(n as nat % 10)));
        s
    }
}

impl Attribute {
    /// The attribute with the given key and value.
    pub fn new(key: &str, value: String) -> (a: Attribute)
        ensures
            a@ == (key@, value@),
    {
        Attribute { key: String::from_str(key), value }
    }
}

/// Builds the attributes of a collection of the college `college_id`.
pub fn build_collection_attributes(college_id: u16) -> (list: Vec<Attribute>)
    ensures
        attribute_views(list@) == collection_attributes(college_id),
{
    let mut list: Vec<Attribute> = Vec::new();
    list.push(Attribute::new("Tenant ID", decimal_text(college_id)));
    list.push(Attribute::new("Collection Type", String::from_str("Academic Certificate")));
    assert(attribute_views(list@) =~= collection_attributes(college_id));
    list
}

/// Builds the attributes of a certificate issued by the college `college_id`.
pub fn build_certificate_attributes(
    college_id: u16,
    student_name: &String,
    course_name: &String,
    completion_date: &String,
    grade: &Option<String>,
) -> (list: Vec<Attribute>)
    ensures
        attribute_views(list@) == certificate_attributes(
            college_id,
            student_name@,
            course_name@,
            completion_date@,
            match *grade {
                Some(g) => Some(g@),
                None => None,
            },
        ),
{
    let mut list: Vec<Attribute> = Vec::new();
    list.push(Attribute::new("Student Name", student_name.clone()));
    list.push(Attribute::new("Course", course_name.clone()));
    list.push(Attribute::new("Completion Date", completion_date.clone()));
    list.push(Attribute::new("Tenant ID", decimal_text(college_id)));
    list.push(Attribute::new("Certificate Type", String::from_str("Academic Certificate")));
    match grade {
        Some(g) => {
            list.push(Attribute::new("Grade", g.clone()));
        },
        None => {},
    }
    assert(attribute_views(list@) =~= certificate_attributes(
        college_id,
        student_name@,
        course_name@,
        completion_date@,
        match *grade {
            Some(g) => Some(g@),
            None => None,
        },
    ));
    list
}

} // verus!
