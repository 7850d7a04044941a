//! The fixed local fact tables: ten entries each for the tech,
//! programming, AI and scaling categories. They are read-only data and
//! the only source of facts for every category other than `All`.

use vstd::prelude::*;

use crate::category::Category;

verus! {

/// Every local table holds exactly this many entries.
pub const TABLE_LEN: usize = 10;

/// The tech table entry at index `i`.
pub open spec fn spec_tech_fact(i: int) -> Seq<char> {
    if i == 0 {
        "The first computer bug was an actual bug! Grace Hopper found a moth stuck in a Harvard Mark II computer in 1947."@
    } else if i == 1 {
        "The term 'debugging' comes from this incident - they literally had to 'debug' the computer by removing the moth."@
    } else if i == 2 {
        "The first programming language was FORTRAN, created by IBM in 1957. It's still used today in scientific computing!"@
    } else if i == 3 {
        "Linus Torvalds created Linux as a hobby project while he was a student at the University of Helsinki in 1991."@
    } else if i == 4 {
        "The first computer virus was created in 1983 by Fred Cohen and was called 'Elk Cloner'."@
    } else if i == 5 {
        "The word 'algorithm' comes from the name of a 9th-century Persian mathematician, Al-Khwarizmi."@
    } else if i == 6 {
        "The first website ever created is still online: http://info.cern.ch/hypertext/WWW/TheProject.html"@
    } else if i == 7 {
        "JavaScript was created in just 10 days by Brendan Eich in 1995. He was originally hired to work on Scheme!"@
    } else if i == 8 {
        "The first computer programmer was Ada Lovelace, who wrote algorithms for Charles Babbage's Analytical Engine in the 1840s."@
    } else {
        "Git was created by Linus Torvalds in 2005 because he was frustrated with existing version control systems."@
    }
}

/// The programming table entry at index `i`.
pub open spec fn spec_programming_fact(i: int) -> Seq<char> {
    if i == 0 {
        "The 'Hello, World!' program was first used in a 1972 book by Brian Kernighan and Dennis Ritchie."@
    } else if i == 1 {
        "The first computer mouse was made of wood and had only one button. It was invented by Douglas Engelbart in 1964."@
    } else if i == 2 {
        "The term 'software' was first used by John Tukey in 1958, though the concept existed before that."@
    } else if i == 3 {
        "The first computer game was 'Spacewar!' created in 1962 by Steve Russell at MIT."@
    } else if i == 4 {
        "The first email was sent by Ray Tomlinson in 1971. He can't remember what it said!"@
    } else if i == 5 {
        "The first computer was the size of a room and had less processing power than a modern calculator."@
    } else if i == 6 {
        "The first computer programmer was a woman: Ada Lovelace, who worked on Charles Babbage's Analytical Engine."@
    } else if i == 7 {
        "The first computer virus was created in 1983 and was called 'Elk Cloner'."@
    } else if i == 8 {
        "The first computer bug was an actual bug - a moth found in a Harvard Mark II computer in 1947."@
    } else {
        "The first computer mouse was made of wood and had only one button."@
    }
}

/// The AI table entry at index `i`.
pub open spec fn spec_ai_fact(i: int) -> Seq<char> {
    if i == 0 {
        "The term 'Artificial Intelligence' was coined by John McCarthy in 1956 at the Dartmouth Conference."@
    } else if i == 1 {
        "The first AI program was written in 1951 by Christopher Strachey - it played checkers!"@
    } else if i == 2 {
        "Machine learning algorithms can now detect cancer in medical images with higher accuracy than human radiologists."@
    } else if i == 3 {
        "The first chatbot, ELIZA, was created in 1966 by Joseph Weizenbaum at MIT. It simulated a psychotherapist."@
    } else if i == 4 {
        "Deep Blue, IBM's chess computer, defeated world champion Garry Kasparov in 1997 - a historic moment for AI."@
    } else if i == 5 {
        "The concept of neural networks dates back to 1943, when Warren McCulloch and Walter Pitts created the first mathematical model."@
    } else if i == 6 {
        "GPT-3 has 175 billion parameters, but the human brain has approximately 86 billion neurons with 100 trillion connections."@
    } else if i == 7 {
        "The first self-driving car was developed by Carnegie Mellon University in 1984 - it could reach speeds of 20 mph."@
    } else if i == 8 {
        "AI can now generate code, but it still struggles with complex reasoning and understanding context like humans do."@
    } else {
        "The Turing Test, proposed by Alan Turing in 1950, is still considered a benchmark for AI intelligence."@
    }
}

/// The scaling table entry at index `i`.
pub open spec fn spec_scaling_fact(i: int) -> Seq<char> {
    if i == 0 {
        "Google processes over 8.5 billion searches per day - that's about 99,000 searches per second!"@
    } else if i == 1 {
        "Facebook (Meta) serves over 2.9 billion monthly active users with their distributed systems architecture."@
    } else if i == 2 {
        "Amazon's AWS handles more than 1 million requests per second during peak times."@
    } else if i == 3 {
        "The CAP theorem states that a distributed system can only guarantee two of three properties: Consistency, Availability, and Partition tolerance."@
    } else if i == 4 {
        "Microservices architecture allows companies like Netflix to deploy code hundreds of times per day."@
    } else if i == 5 {
        "Load balancing can distribute traffic across multiple servers, but it requires careful session management."@
    } else if i == 6 {
        "Database sharding splits large databases into smaller, more manageable pieces across multiple servers."@
    } else if i == 7 {
        "CDNs (Content Delivery Networks) can reduce page load times by 50-70% by serving content from locations closer to users."@
    } else if i == 8 {
        "Horizontal scaling (adding more servers) is often more cost-effective than vertical scaling (upgrading hardware)."@
    } else {
        "Caching can improve application performance by 10-100x by storing frequently accessed data in memory."@
    }
}

/// `s` is one of the ten tech table entries.
pub open spec fn is_tech_fact(s: Seq<char>) -> bool {
    exists|i: int| 0 <= i < TABLE_LEN && s == spec_tech_fact(i)
}

/// `s` is one of the ten programming table entries.
pub open spec fn is_programming_fact(s: Seq<char>) -> bool {
    exists|i: int| 0 <= i < TABLE_LEN && s == spec_programming_fact(i)
}

/// `s` is one of the ten AI table entries.
pub open spec fn is_ai_fact(s: Seq<char>) -> bool {
    exists|i: int| 0 <= i < TABLE_LEN && s == spec_ai_fact(i)
}

/// `s` is one of the ten scaling table entries.
pub open spec fn is_scaling_fact(s: Seq<char>) -> bool {
    exists|i: int| 0 <= i < TABLE_LEN && s == spec_scaling_fact(i)
}

/// `s` is an entry of the local table that serves category `c`.
/// `Coding` and `Programming` share the programming table; `All` has no
/// local table of its own (its local fallback is the tech table, named
/// where the fallback is resolved).
pub open spec fn spec_from_table(c: Category, s: Seq<char>) -> bool {
    match c {
        Category::All => false,
        Category::Coding => is_programming_fact(s),
        Category::Programming => is_programming_fact(s),
        Category::Tech => is_tech_fact(s),
        Category::Ai => is_ai_fact(s),
        Category::Scaling => is_scaling_fact(s),
    }
}

/// The tech table entry at index `i`.
pub fn tech_fact(i: usize) -> (r: &'static str)
    requires
        i < TABLE_LEN,
    ensures
        r@ == spec_tech_fact(i as int),
{
    match i {
        0 => "The first computer bug was an actual bug! Grace Hopper found a moth stuck in a Harvard Mark II computer in 1947.",
        1 => "The term 'debugging' comes from this incident - they literally had to 'debug' the computer by removing the moth.",
        2 => "The first programming language was FORTRAN, created by IBM in 1957. It's still used today in scientific computing!",
        3 => "Linus Torvalds created Linux as a hobby project while he was a student at the University of Helsinki in 1991.",
        4 => "The first computer virus was created in 1983 by Fred Cohen and was called 'Elk Cloner'.",
        5 => "The word 'algorithm' comes from the name of a 9th-century Persian mathematician, Al-Khwarizmi.",
        6 => "The first website ever created is still online: http://info.cern.ch/hypertext/WWW/TheProject.html",
        7 => "JavaScript was created in just 10 days by Brendan Eich in 1995. He was originally hired to work on Scheme!",
        8 => "The first computer programmer was Ada Lovelace, who wrote algorithms for Charles Babbage's Analytical Engine in the 1840s.",
        _ => "Git was created by Linus Torvalds in 2005 because he was frustrated with existing version control systems.",
    }
}

/// The programming table entry at index `i`.
pub fn programming_fact(i: usize) -> (r: &'static str)
    requires
        i < TABLE_LEN,
    ensures
        r@ == spec_programming_fact(i as int),
{
    match i {
        0 => "The 'Hello, World!' program was first used in a 1972 book by Brian Kernighan and Dennis Ritchie.",
        1 => "The first computer mouse was made of wood and had only one button. It was invented by Douglas Engelbart in 1964.",
        2 => "The term 'software' was first used by John Tukey in 1958, though the concept existed before that.",
        3 => "The first computer game was 'Spacewar!' created in 1962 by Steve Russell at MIT.",
        4 => "The first email was sent by Ray Tomlinson in 1971. He can't remember what it said!",
        5 => "The first computer was the size of a room and had less processing power than a modern calculator.",
        6 => "The first computer programmer was a woman: Ada Lovelace, who worked on Charles Babbage's Analytical Engine.",
        7 => "The first computer virus was created in 1983 and was called 'Elk Cloner'.",
        8 => "The first computer bug was an actual bug - a moth found in a Harvard Mark II computer in 1947.",
        _ => "The first computer mouse was made of wood and had only one button.",
    }
}

/// The AI table entry at index `i`.
pub fn ai_fact(i: usize) -> (r: &'static str)
    requires
        i < TABLE_LEN,
    ensures
        r@ == spec_ai_fact(i as int),
{
    match i {
        0 => "The term 'Artificial Intelligence' was coined by John McCarthy in 1956 at the Dartmouth Conference.",
        1 => "The first AI program was written in 1951 by Christopher Strachey - it played checkers!",
        2 => "Machine learning algorithms can now detect cancer in medical images with higher accuracy than human radiologists.",
        3 => "The first chatbot, ELIZA, was created in 1966 by Joseph Weizenbaum at MIT. It simulated a psychotherapist.",
        4 => "Deep Blue, IBM's chess computer, defeated world champion Garry Kasparov in 1997 - a historic moment for AI.",
        5 => "The concept of neural networks dates back to 1943, when Warren McCulloch and Walter Pitts created the first mathematical model.",
        6 => "GPT-3 has 175 billion parameters, but the human brain has approximately 86 billion neurons with 100 trillion connections.",
        7 => "The first self-driving car was developed by Carnegie Mellon University in 1984 - it could reach speeds of 20 mph.",
        8 => "AI can now generate code, but it still struggles with complex reasoning and understanding context like humans do.",
        _ => "The Turing Test, proposed by Alan Turing in 1950, is still considered a benchmark for AI intelligence.",
    }
}

/// The scaling table entry at index `i`.
pub fn scaling_fact(i: usize) -> (r: &'static str)
    requires
        i < TABLE_LEN,
    ensures
        r@ == spec_scaling_fact(i as int),
{
    match i {
        0 => "Google processes over 8.5 billion searches per day - that's about 99,000 searches per second!",
        1 => "Facebook (Meta) serves over 2.9 billion monthly active users with their distributed systems architecture.",
        2 => "Amazon's AWS handles more than 1 million requests per second during peak times.",
        3 => "The CAP theorem states that a distributed system can only guarantee two of three properties: Consistency, Availability, and Partition tolerance.",
        4 => "Microservices architecture allows companies like Netflix to deploy code hundreds of times per day.",
        5 => "Load balancing can distribute traffic across multiple servers, but it requires careful session management.",
        6 => "Database sharding splits large databases into smaller, more manageable pieces across multiple servers.",
        7 => "CDNs (Content Delivery Networks) can reduce page load times by 50-70% by serving content from locations closer to users.",
        8 => "Horizontal scaling (adding more servers) is often more cost-effective than vertical scaling (upgrading hardware).",
        _ => "Caching can improve application performance by 10-100x by storing frequently accessed data in memory.",
    }
}

} // verus!
